//! Item kinds and their integer encoding.
use vstd::prelude::*;

verus! {

/// A kind of item that a port or a storage slot can hold.
#[derive(Debug, Clone, Copy, PartialEq, Eq, Structural, PartialOrd, Ord, Hash)]
pub enum Item {
    /// Nothing held.
    Empty,
    RichAir,
    ManaCrystal,
    LiquidCurse,
    ManaDust,
    SilicaPowder,
    ObsidianPlate,
    CopperCoin,
    SilverCoin,
    GoldCoin,
    TaintedWater,
    ChaosSalt,
    VialOfBlood,
    LifeForce,
    CongealedFleshmatter,
    SentientMeat,
    WeakManaGem,
    PureManaGem,
    GloomShard,
    BrightShard,
    EqualizedOrb,
    AdamantineBar,
    AstralSheet,
    ElementalChassis,
    EnergizedSpark,
    ImmaculateSoul,
    Phylactery,
}

/// The fixed, total ordering of the concrete item kinds.
pub open spec fn catalogue() -> Seq<Item> {
    seq![
        Item::RichAir,
        Item::ManaCrystal,
        Item::LiquidCurse,
        Item::ManaDust,
        Item::SilicaPowder,
        Item::ObsidianPlate,
        Item::CopperCoin,
        Item::SilverCoin,
        Item::GoldCoin,
        Item::TaintedWater,
        Item::ChaosSalt,
        Item::VialOfBlood,
        Item::LifeForce,
        Item::CongealedFleshmatter,
        Item::SentientMeat,
        Item::WeakManaGem,
        Item::PureManaGem,
        Item::GloomShard,
        Item::BrightShard,
        Item::EqualizedOrb,
        Item::AdamantineBar,
        Item::AstralSheet,
        Item::ElementalChassis,
        Item::EnergizedSpark,
        Item::ImmaculateSoul,
        Item::Phylactery,
    ]
}

/// The integer code of an item: its position in the catalogue, or -1 for `Empty`.
pub open spec fn item_code(item: Item) -> int {
    match item {
        Item::Empty => -1,
        Item::RichAir => 0,
        Item::ManaCrystal => 1,
        Item::LiquidCurse => 2,
        Item::ManaDust => 3,
        Item::SilicaPowder => 4,
        Item::ObsidianPlate => 5,
        Item::CopperCoin => 6,
        Item::SilverCoin => 7,
        Item::GoldCoin => 8,
        Item::TaintedWater => 9,
        Item::ChaosSalt => 10,
        Item::VialOfBlood => 11,
        Item::LifeForce => 12,
        Item::CongealedFleshmatter => 13,
        Item::SentientMeat => 14,
        Item::WeakManaGem => 15,
        Item::PureManaGem => 16,
        Item::GloomShard => 17,
        Item::BrightShard => 18,
        Item::EqualizedOrb => 19,
        Item::AdamantineBar => 20,
        Item::AstralSheet => 21,
        Item::ElementalChassis => 22,
        Item::EnergizedSpark => 23,
        Item::ImmaculateSoul => 24,
        Item::Phylactery => 25,
    }
}

/// The item that an integer code stands for, if any.
pub open spec fn item_of_code(code: int) -> Option<Item> {
    if code == -1 {
        Some(Item::Empty)
    } else if 0 <= code < catalogue().len() {
        Some(catalogue()[code])
    } else {
        None
    }
}

impl Item {
    /// The concrete item kinds, in catalogue order.
    pub fn items() -> (r: Vec<Item>)
        ensures
            r@ == catalogue(),
    {
        vec![
            Item::RichAir,
            Item::ManaCrystal,
            Item::LiquidCurse,
            Item::ManaDust,
            Item::SilicaPowder,
            Item::ObsidianPlate,
            Item::CopperCoin,
            Item::SilverCoin,
            Item::GoldCoin,
            Item::TaintedWater,
            Item::ChaosSalt,
            Item::VialOfBlood,
            Item::LifeForce,
            Item::CongealedFleshmatter,
            Item::SentientMeat,
            Item::WeakManaGem,
            Item::PureManaGem,
            Item::GloomShard,
            Item::BrightShard,
            Item::EqualizedOrb,
            Item::AdamantineBar,
            Item::AstralSheet,
            Item::ElementalChassis,
            Item::EnergizedSpark,
            Item::ImmaculateSoul,
            Item::Phylactery,
        ]
    }

    /// The integer code written wherever this item is exported.
    pub fn code(&self) -> (r: i8)
        ensures
            r as int == item_code(*self),
    {
        match self {
            Item::Empty => -1,
            Item::RichAir => 0,
            Item::ManaCrystal => 1,
            Item::LiquidCurse => 2,
            Item::ManaDust => 3,
            Item::SilicaPowder => 4,
            Item::ObsidianPlate => 5,
            Item::CopperCoin => 6,
            Item::SilverCoin => 7,
            Item::GoldCoin => 8,
            Item::TaintedWater => 9,
            Item::ChaosSalt => 10,
            Item::VialOfBlood => 11,
            Item::LifeForce => 12,
            Item::CongealedFleshmatter => 13,
            Item::SentientMeat => 14,
            Item::WeakManaGem => 15,
            Item::PureManaGem => 16,
            Item::GloomShard => 17,
            Item::BrightShard => 18,
            Item::EqualizedOrb => 19,
            Item::AdamantineBar => 20,
            Item::AstralSheet => 21,
            Item::ElementalChassis => 22,
            Item::EnergizedSpark => 23,
            Item::ImmaculateSoul => 24,
            Item::Phylactery => 25,
        }
    }
}

impl TryFrom<i8> for Item {
    type Error = ();

    fn try_from(value: i8) -> (r: Result<Item, ()>)
        ensures
            r == (match item_of_code(value as int) {
                Some(item) => Ok(item),
                None => Err(()),
            }),
    {
        if value < -1 {
            Err(())
        } else if value == -1 {
            Ok(Item::Empty)
        } else {
            let items = Item::items();
            let index = value as usize;
            if index < items.len() {
                Ok(items[index])
            } else {
                Err(())
            }
        }
    }
}

impl vstd::std_specs::convert::TryFromSpecImpl<i8> for Item {
    open spec fn obeys_try_from_spec() -> bool {
        true
    }

    open spec fn try_from_spec(v: i8) -> Result<Item, ()> {
        match item_of_code(v as int) {
            Some(item) => Ok(item),
            None => Err(()),
        }
    }
}

/// Decoding the code of any item gives that item back; -1 decodes to `Empty`;
/// every other code below -1 or past the catalogue decodes to nothing.
pub proof fn lemma_item_code_round_trip(item: Item, code: int)
    ensures
        item_of_code(item_code(item)) == Some(item),
        -128 <= item_code(item) < catalogue().len(),
        item_of_code(-1) == Some(Item::Empty),
        (code < -1 || code >= catalogue().len()) ==> item_of_code(code) is None,
        catalogue().len() == 26,
{
    reveal_with_fuel(catalogue, 1);
}

} // verus!
