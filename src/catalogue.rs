//! The catalogue of machine archetypes: footprints, port offsets, external
//! object codes and the fixed description text written for each kind.
use vstd::prelude::*;

use crate::geometry::{HasSize, Offset, Size};

verus! {

/// The archetype of a machine.
#[derive(Debug, Clone, Copy, PartialEq, Eq, Structural, PartialOrd, Ord, Hash)]
pub enum StructureKind {
    AirPump,
    Refinery,
    Disharmonizer,
    Unifier,
    SubdimensionalMarket,
    Splitter,
    Merger,
    StorageVault,
    AbysalDoor,
    SingleStorage,
    Laboratory,
    RitualInfuser,
    BigMerger,
    BigSplitter,
}

/// The kind-relative offsets of the input ports, in port order.
pub open spec fn input_offsets(kind: StructureKind) -> Seq<Offset> {
    match kind {
        StructureKind::AirPump => Seq::empty(),
        StructureKind::Refinery => seq![Offset { x: 0i32, y: 0i32 }],
        StructureKind::Disharmonizer => seq![Offset { x: 0i32, y: 3i32 }],
        StructureKind::Unifier => seq![Offset { x: 0i32, y: 4i32 }, Offset { x: 1i32, y: 4i32 }, Offset { x: 2i32, y: 4i32 }],
        StructureKind::SubdimensionalMarket => seq![Offset { x: 3i32, y: 4i32 }],
        StructureKind::Splitter => seq![Offset { x: 0i32, y: 1i32 }],
        StructureKind::Merger => seq![Offset { x: 0i32, y: 0i32 }, Offset { x: 0i32, y: 2i32 }],
        StructureKind::StorageVault => seq![Offset { x: 0i32, y: 1i32 }],
        StructureKind::AbysalDoor => seq![Offset { x: 0i32, y: 0i32 }],
        StructureKind::SingleStorage => Seq::empty(),
        StructureKind::Laboratory => seq![Offset { x: 0i32, y: 1i32 }],
        StructureKind::RitualInfuser => seq![Offset { x: 0i32, y: 1i32 }, Offset { x: 2i32, y: 0i32 }, Offset { x: 4i32, y: 1i32 }],
        StructureKind::BigMerger => seq![Offset { x: 0i32, y: 0i32 }, Offset { x: 0i32, y: 1i32 }, Offset { x: 0i32, y: 2i32 }, Offset { x: 0i32, y: 3i32 }, Offset { x: 0i32, y: 4i32 }],
        StructureKind::BigSplitter => seq![Offset { x: 0i32, y: 5i32 }],
    }
}

/// The kind-relative offsets of the output ports, in port order.
pub open spec fn output_offsets(kind: StructureKind) -> Seq<Offset> {
    match kind {
        StructureKind::AirPump => seq![Offset { x: 1i32, y: 1i32 }],
        StructureKind::Refinery => seq![Offset { x: 5i32, y: 0i32 }],
        StructureKind::Disharmonizer => seq![Offset { x: 3i32, y: 0i32 }, Offset { x: 3i32, y: 1i32 }, Offset { x: 3i32, y: 2i32 }, Offset { x: 3i32, y: 3i32 }],
        StructureKind::Unifier => seq![Offset { x: 1i32, y: 0i32 }],
        StructureKind::SubdimensionalMarket => seq![Offset { x: 3i32, y: 0i32 }, Offset { x: 3i32, y: 1i32 }, Offset { x: 3i32, y: 2i32 }],
        StructureKind::Splitter => seq![Offset { x: 0i32, y: 0i32 }, Offset { x: 0i32, y: 2i32 }],
        StructureKind::Merger => seq![Offset { x: 0i32, y: 1i32 }],
        StructureKind::StorageVault => seq![Offset { x: 4i32, y: 1i32 }],
        StructureKind::AbysalDoor => Seq::empty(),
        StructureKind::SingleStorage => seq![Offset::spec_null()],
        StructureKind::Laboratory => Seq::empty(),
        StructureKind::RitualInfuser => seq![Offset::spec_null()],
        StructureKind::BigMerger => seq![Offset { x: 0i32, y: 5i32 }],
        StructureKind::BigSplitter => seq![Offset { x: 0i32, y: 0i32 }, Offset { x: 0i32, y: 1i32 }, Offset { x: 0i32, y: 2i32 }, Offset { x: 0i32, y: 3i32 }, Offset { x: 0i32, y: 4i32 }],
    }
}

/// The footprint of a kind.
pub open spec fn kind_size(kind: StructureKind) -> Size {
    match kind {
        StructureKind::AirPump => Size { w: 2i32, h: 2i32 },
        StructureKind::Refinery => Size { w: 6i32, h: 2i32 },
        StructureKind::Disharmonizer => Size { w: 4i32, h: 4i32 },
        StructureKind::Unifier => Size { w: 3i32, h: 5i32 },
        StructureKind::SubdimensionalMarket => Size { w: 4i32, h: 5i32 },
        StructureKind::Splitter => Size { w: 1i32, h: 3i32 },
        StructureKind::Merger => Size { w: 1i32, h: 3i32 },
        StructureKind::StorageVault => Size { w: 5i32, h: 2i32 },
        StructureKind::AbysalDoor => Size { w: 4i32, h: 1i32 },
        StructureKind::SingleStorage => Size { w: 1i32, h: 1i32 },
        StructureKind::Laboratory => Size { w: 5i32, h: 2i32 },
        StructureKind::RitualInfuser => Size { w: 5i32, h: 5i32 },
        StructureKind::BigMerger => Size { w: 1i32, h: 6i32 },
        StructureKind::BigSplitter => Size { w: 1i32, h: 6i32 },
    }
}

/// The numeric object code under which the external format knows a kind.
pub open spec fn object_code(kind: StructureKind) -> int {
    match kind {
        StructureKind::AirPump => 3,
        StructureKind::Refinery => 5,
        StructureKind::Disharmonizer => 2,
        StructureKind::Unifier => 1,
        StructureKind::SubdimensionalMarket => 6,
        StructureKind::Splitter => 23,
        StructureKind::Merger => 26,
        StructureKind::StorageVault => 0,
        StructureKind::AbysalDoor => 18,
        StructureKind::SingleStorage => 19,
        StructureKind::Laboratory => 20,
        StructureKind::RitualInfuser => 12,
        StructureKind::BigMerger => 4,
        StructureKind::BigSplitter => 9,
    }
}

/// The fixed text of a kind's `struct` record, cut where item codes go in:
/// the codes stand between consecutive pieces.
pub open spec fn struct_pieces(kind: StructureKind) -> Seq<Seq<char>> {
    match kind {
        StructureKind::AirPump => seq![AIR_PUMP_TEXT_0@, AIR_PUMP_TEXT_1@],
        StructureKind::Refinery => seq![REFINERY_TEXT_0@, REFINERY_TEXT_1@, REFINERY_TEXT_2@],
        StructureKind::Disharmonizer => seq![DISHARMONIZER_TEXT_0@, DISHARMONIZER_TEXT_1@, DISHARMONIZER_TEXT_2@, DISHARMONIZER_TEXT_3@, DISHARMONIZER_TEXT_4@, DISHARMONIZER_TEXT_5@],
        StructureKind::Unifier => seq![UNIFIER_TEXT_0@, UNIFIER_TEXT_1@, UNIFIER_TEXT_2@, UNIFIER_TEXT_3@, UNIFIER_TEXT_4@],
        StructureKind::SubdimensionalMarket => seq![SUBDIMENSIONAL_MARKET_TEXT_0@, SUBDIMENSIONAL_MARKET_TEXT_1@, SUBDIMENSIONAL_MARKET_TEXT_2@, SUBDIMENSIONAL_MARKET_TEXT_3@, SUBDIMENSIONAL_MARKET_TEXT_4@],
        StructureKind::Splitter => seq![SPLITTER_TEXT_0@, SPLITTER_TEXT_1@, SPLITTER_TEXT_2@, SPLITTER_TEXT_3@],
        StructureKind::Merger => seq![MERGER_TEXT_0@, MERGER_TEXT_1@, MERGER_TEXT_2@, MERGER_TEXT_3@],
        StructureKind::StorageVault => seq![STORAGE_VAULT_TEXT_0@, STORAGE_VAULT_TEXT_1@, STORAGE_VAULT_TEXT_2@],
        StructureKind::AbysalDoor => seq![ABYSAL_DOOR_TEXT_0@, ABYSAL_DOOR_TEXT_1@],
        StructureKind::SingleStorage => seq![SINGLE_STORAGE_TEXT_0@, SINGLE_STORAGE_TEXT_1@],
        StructureKind::Laboratory => seq![LABORATORY_TEXT_0@, LABORATORY_TEXT_1@],
        StructureKind::RitualInfuser => seq![RITUAL_INFUSER_TEXT_0@, RITUAL_INFUSER_TEXT_1@, RITUAL_INFUSER_TEXT_2@, RITUAL_INFUSER_TEXT_3@, RITUAL_INFUSER_TEXT_4@],
        StructureKind::BigMerger => seq![BIG_MERGER_TEXT_0@, BIG_MERGER_TEXT_1@, BIG_MERGER_TEXT_2@, BIG_MERGER_TEXT_3@, BIG_MERGER_TEXT_4@, BIG_MERGER_TEXT_5@, BIG_MERGER_TEXT_6@],
        StructureKind::BigSplitter => seq![BIG_SPLITTER_TEXT_0@, BIG_SPLITTER_TEXT_1@, BIG_SPLITTER_TEXT_2@, BIG_SPLITTER_TEXT_3@, BIG_SPLITTER_TEXT_4@, BIG_SPLITTER_TEXT_5@, BIG_SPLITTER_TEXT_6@],
    }
}

/// The port offsets of one kind.
pub struct ConnectorData {
    pub inputs: Vec<Offset>,
    pub outputs: Vec<Offset>,
}

impl StructureKind {
    /// The numeric object code of this kind.
    pub fn object_number(&self) -> (r: u8)
        ensures
            r as int == object_code(*self),
    {
        match self {
            StructureKind::AirPump => 3,
            StructureKind::Refinery => 5,
            StructureKind::Disharmonizer => 2,
            StructureKind::Unifier => 1,
            StructureKind::SubdimensionalMarket => 6,
            StructureKind::Splitter => 23,
            StructureKind::Merger => 26,
            StructureKind::StorageVault => 0,
            StructureKind::AbysalDoor => 18,
            StructureKind::SingleStorage => 19,
            StructureKind::Laboratory => 20,
            StructureKind::RitualInfuser => 12,
            StructureKind::BigMerger => 4,
            StructureKind::BigSplitter => 9,
        }
    }

    /// The input and output port offsets of this kind.
    pub fn connectors(&self) -> (r: ConnectorData)
        ensures
            r.inputs@ == input_offsets(*self),
            r.outputs@ == output_offsets(*self),
    {
        match self {
            StructureKind::AirPump => ConnectorData {
                inputs: Vec::new(),
                outputs: vec![Offset { x: 1, y: 1 }],
            },
            StructureKind::Refinery => ConnectorData {
                inputs: vec![Offset { x: 0, y: 0 }],
                outputs: vec![Offset { x: 5, y: 0 }],
            },
            StructureKind::Disharmonizer => ConnectorData {
                inputs: vec![Offset { x: 0, y: 3 }],
                outputs: vec![Offset { x: 3, y: 0 }, Offset { x: 3, y: 1 }, Offset { x: 3, y: 2 }, Offset { x: 3, y: 3 }],
            },
            StructureKind::Unifier => ConnectorData {
                inputs: vec![Offset { x: 0, y: 4 }, Offset { x: 1, y: 4 }, Offset { x: 2, y: 4 }],
                outputs: vec![Offset { x: 1, y: 0 }],
            },
            StructureKind::SubdimensionalMarket => ConnectorData {
                inputs: vec![Offset { x: 3, y: 4 }],
                outputs: vec![Offset { x: 3, y: 0 }, Offset { x: 3, y: 1 }, Offset { x: 3, y: 2 }],
            },
            StructureKind::Splitter => ConnectorData {
                inputs: vec![Offset { x: 0, y: 1 }],
                outputs: vec![Offset { x: 0, y: 0 }, Offset { x: 0, y: 2 }],
            },
            StructureKind::Merger => ConnectorData {
                inputs: vec![Offset { x: 0, y: 0 }, Offset { x: 0, y: 2 }],
                outputs: vec![Offset { x: 0, y: 1 }],
            },
            StructureKind::StorageVault => ConnectorData {
                inputs: vec![Offset { x: 0, y: 1 }],
                outputs: vec![Offset { x: 4, y: 1 }],
            },
            StructureKind::AbysalDoor => ConnectorData {
                inputs: vec![Offset { x: 0, y: 0 }],
                outputs: Vec::new(),
            },
            StructureKind::SingleStorage => ConnectorData {
                inputs: Vec::new(),
                outputs: vec![Offset::null()],
            },
            StructureKind::Laboratory => ConnectorData {
                inputs: vec![Offset { x: 0, y: 1 }],
                outputs: Vec::new(),
            },
            StructureKind::RitualInfuser => ConnectorData {
                inputs: vec![Offset { x: 0, y: 1 }, Offset { x: 2, y: 0 }, Offset { x: 4, y: 1 }],
                outputs: vec![Offset::null()],
            },
            StructureKind::BigMerger => ConnectorData {
                inputs: vec![Offset { x: 0, y: 0 }, Offset { x: 0, y: 1 }, Offset { x: 0, y: 2 }, Offset { x: 0, y: 3 }, Offset { x: 0, y: 4 }],
                outputs: vec![Offset { x: 0, y: 5 }],
            },
            StructureKind::BigSplitter => ConnectorData {
                inputs: vec![Offset { x: 0, y: 5 }],
                outputs: vec![Offset { x: 0, y: 0 }, Offset { x: 0, y: 1 }, Offset { x: 0, y: 2 }, Offset { x: 0, y: 3 }, Offset { x: 0, y: 4 }],
            },
        }
    }

    /// The pieces of this kind's `struct` record text.
    pub fn struct_template(&self) -> (r: Vec<&'static str>)
        ensures
            r@.len() == struct_pieces(*self).len(),
            forall|i: int| 0 <= i < r@.len() ==> #[trigger] r@[i]@ == struct_pieces(*self)[i],
    {
        match self {
            StructureKind::AirPump => vec![AIR_PUMP_TEXT_0, AIR_PUMP_TEXT_1],
            StructureKind::Refinery => vec![REFINERY_TEXT_0, REFINERY_TEXT_1, REFINERY_TEXT_2],
            StructureKind::Disharmonizer => vec![DISHARMONIZER_TEXT_0, DISHARMONIZER_TEXT_1, DISHARMONIZER_TEXT_2, DISHARMONIZER_TEXT_3, DISHARMONIZER_TEXT_4, DISHARMONIZER_TEXT_5],
            StructureKind::Unifier => vec![UNIFIER_TEXT_0, UNIFIER_TEXT_1, UNIFIER_TEXT_2, UNIFIER_TEXT_3, UNIFIER_TEXT_4],
            StructureKind::SubdimensionalMarket => vec![SUBDIMENSIONAL_MARKET_TEXT_0, SUBDIMENSIONAL_MARKET_TEXT_1, SUBDIMENSIONAL_MARKET_TEXT_2, SUBDIMENSIONAL_MARKET_TEXT_3, SUBDIMENSIONAL_MARKET_TEXT_4],
            StructureKind::Splitter => vec![SPLITTER_TEXT_0, SPLITTER_TEXT_1, SPLITTER_TEXT_2, SPLITTER_TEXT_3],
            StructureKind::Merger => vec![MERGER_TEXT_0, MERGER_TEXT_1, MERGER_TEXT_2, MERGER_TEXT_3],
            StructureKind::StorageVault => vec![STORAGE_VAULT_TEXT_0, STORAGE_VAULT_TEXT_1, STORAGE_VAULT_TEXT_2],
            StructureKind::AbysalDoor => vec![ABYSAL_DOOR_TEXT_0, ABYSAL_DOOR_TEXT_1],
            StructureKind::SingleStorage => vec![SINGLE_STORAGE_TEXT_0, SINGLE_STORAGE_TEXT_1],
            StructureKind::Laboratory => vec![LABORATORY_TEXT_0, LABORATORY_TEXT_1],
            StructureKind::RitualInfuser => vec![RITUAL_INFUSER_TEXT_0, RITUAL_INFUSER_TEXT_1, RITUAL_INFUSER_TEXT_2, RITUAL_INFUSER_TEXT_3, RITUAL_INFUSER_TEXT_4],
            StructureKind::BigMerger => vec![BIG_MERGER_TEXT_0, BIG_MERGER_TEXT_1, BIG_MERGER_TEXT_2, BIG_MERGER_TEXT_3, BIG_MERGER_TEXT_4, BIG_MERGER_TEXT_5, BIG_MERGER_TEXT_6],
            StructureKind::BigSplitter => vec![BIG_SPLITTER_TEXT_0, BIG_SPLITTER_TEXT_1, BIG_SPLITTER_TEXT_2, BIG_SPLITTER_TEXT_3, BIG_SPLITTER_TEXT_4, BIG_SPLITTER_TEXT_5, BIG_SPLITTER_TEXT_6],
        }
    }
}

impl HasSize for StructureKind {
    open spec fn footprint(&self) -> Size {
        kind_size(*self)
    }

    fn size(&self) -> (r: Size) {
        match self {
            StructureKind::AirPump => Size { w: 2, h: 2 },
            StructureKind::Refinery => Size { w: 6, h: 2 },
            StructureKind::Disharmonizer => Size { w: 4, h: 4 },
            StructureKind::Unifier => Size { w: 3, h: 5 },
            StructureKind::SubdimensionalMarket => Size { w: 4, h: 5 },
            StructureKind::Splitter => Size { w: 1, h: 3 },
            StructureKind::Merger => Size { w: 1, h: 3 },
            StructureKind::StorageVault => Size { w: 5, h: 2 },
            StructureKind::AbysalDoor => Size { w: 4, h: 1 },
            StructureKind::SingleStorage => Size { w: 1, h: 1 },
            StructureKind::Laboratory => Size { w: 5, h: 2 },
            StructureKind::RitualInfuser => Size { w: 5, h: 5 },
            StructureKind::BigMerger => Size { w: 1, h: 6 },
            StructureKind::BigSplitter => Size { w: 1, h: 6 },
        }
    }
}

// The record text of each kind, cut where item codes go in. Numbered pieces of
// one kind follow one another in the record.

pub const AIR_PUMP_TEXT_0: &'static str = "-struct=\"{+output_list+:[\
    {+index+:0.0,+column+:1.0,+row+:1.0,+content_column+:1.0,+type+:1,+content_row+:0.0,+content+:";
pub const AIR_PUMP_TEXT_1: &'static str = ".0}],\
    +type+:0.0,+machine_type+:{+name+:+Air Pump+,+type+:0,+description+:+Sucks in potent air from the surrounding valley and puts it in a bottle.+,+sprite+:5,+machine_cost+:{+cost_type_list+:[\
    8,0,0,1,1,2,2,5,15,16,16,16,7,7,7,7,7,7,20,20,20,21,21,21,21,21,21],+cost_amount_list+:[\
    3.0,2.0,4.0,4.0,4.0,4.0,3.0,4.0,5.0,3.0,3.0,3.0,4.0,4.0,3.0,3.0,2.0,2.0,3.0,3.0,2.0,3.0,3.0,2.0,2.0,1.0,1.0]},\
    +cost_input+:0.0,+speed_increase+:8.0,+unlocked+:true,+machine_speed+:8.0},+input_list+:[\
    ]}\"";
pub const REFINERY_TEXT_0: &'static str = "-struct=\"{+output_list+:[\
    {+index+:0.0,+column+:5.0,+row+:0.0,+content_column+:5.0,+type+:1,+content_row+:1.0,+content+:";
pub const REFINERY_TEXT_1: &'static str = ".0}],\
    +type+:1.0,+machine_type+:{+name+:+Refinery+,+type+:1,+description+:+Improves a resource, turning it into something better.+,+sprite+:35,+machine_cost+:{+cost_type_list+:[\
    0,1,1,1,1,3,3,3,3,3,3,3,15,15,15,15,16,16,16],+cost_amount_list+:[\
    3.0,2.0,2.0,2.0,2.0,4.0,3.0,3.0,2.0,2.0,2.0,2.0,3.0,3.0,2.0,2.0,2.0,2.0,1.0]},\
    +cost_input+:0.0,+speed_increase+:8.0,+unlocked+:true,+machine_speed+:16.0},+input_list+:[\
    {+index+:0.0,+column+:0.0,+row+:0.0,+content_column+:0.0,+type+:0,+content_row+:1.0,+content+:";
pub const REFINERY_TEXT_2: &'static str = ".0}]}\"";
pub const DISHARMONIZER_TEXT_0: &'static str = "-struct=\"{+output_list+:[\
    {+index+:0.0,+column+:3.0,+row+:0.0,+content_column+:2.0,+type+:1,+content_row+:0.0,+content+:";
pub const DISHARMONIZER_TEXT_1: &'static str = ".0},\
    {+index+:1.0,+column+:3.0,+row+:1.0,+content_column+:2.0,+type+:1,+content_row+:1.0,+content+:";
pub const DISHARMONIZER_TEXT_2: &'static str = ".0},\
    {+index+:2.0,+column+:3.0,+row+:2.0,+content_column+:2.0,+type+:1,+content_row+:2.0,+content+:";
pub const DISHARMONIZER_TEXT_3: &'static str = ".0},\
    {+index+:3.0,+column+:3.0,+row+:3.0,+content_column+:2.0,+type+:1,+content_row+:3.0,+content+:";
pub const DISHARMONIZER_TEXT_4: &'static str = ".0}],\
    +type+:2.0,+machine_type+:{+name+:+Disharmonizer+,+type+:2,+description+:+Breaks resources apart by nature and magical sequence.+,+sprite+:37,+machine_cost+:{+cost_type_list+:[\
    1,5,5,15,17,17,17,17,17,17,17,17,18,18,18,18,18,18,20,20,20,20,20,21,21,21,21],\
    +cost_amount_list+:[\
    3.0,4.0,2.0,4.0,3.0,3.0,2.0,2.0,2.0,2.0,2.0,2.0,3.0,3.0,2.0,2.0,2.0,2.0,3.0,3.0,3.0,2.0,2.0,4.0,3.0,2.0,1.0]},\
    +cost_input+:0.0,+speed_increase+:8.0,+unlocked+:true,+machine_speed+:16.0},+input_list+:[\
    {+index+:0.0,+column+:0.0,+row+:3.0,+content_column+:0.0,+type+:0,+content_row+:2.0,+content+:";
pub const DISHARMONIZER_TEXT_5: &'static str = ".0}]}\"";
pub const UNIFIER_TEXT_0: &'static str = "-struct=\"{+output_list+:[\
    {+index+:0.0,+column+:1.0,+row+:0.0,+content_column+:1.0,+type+:1,+content_row+:1.0,+content+:";
pub const UNIFIER_TEXT_1: &'static str = ".0}],\
    +type+:3.0,+machine_type+:{+name+:+Unifier+,+type+:3,+description+:+Converges multiple resources into one.+,+sprite+:61,+machine_cost+:{+cost_type_list+:[\
    2,15,15,15,15,15,7,7,7,16,16,16,16],+cost_amount_list+:[\
    4.0,4.0,3.0,2.0,2.0,2.0,3.0,3.0,2.0,4.0,3.0,2.0,1.0]},\
    +cost_input+:0.0,+speed_increase+:8.0,+unlocked+:true,+machine_speed+:16.0},+input_list+:[\
    {+index+:0.0,+column+:0.0,+row+:4.0,+content_column+:0.0,+type+:0,+content_row+:3.0,+content+:";
pub const UNIFIER_TEXT_2: &'static str = ".0},\
    {+index+:1.0,+column+:1.0,+row+:4.0,+content_column+:1.0,+type+:0,+content_row+:3.0,+content+:";
pub const UNIFIER_TEXT_3: &'static str = ".0},\
    {+index+:2.0,+column+:2.0,+row+:4.0,+content_column+:2.0,+type+:0,+content_row+:3.0,+content+:";
pub const UNIFIER_TEXT_4: &'static str = ".0}]}\"";
pub const SUBDIMENSIONAL_MARKET_TEXT_0: &'static str = "-struct=\"{+output_list+:[\
    {+index+:0.0,+column+:3.0,+row+:0.0,+content_column+:2.0,+type+:1.0,+content_row+:0.0,+content+:";
pub const SUBDIMENSIONAL_MARKET_TEXT_1: &'static str = ".0},\
    {+index+:1.0,+column+:3.0,+row+:1.0,+content_column+:2.0,+type+:1.0,+content_row+:1.0,+content+:";
pub const SUBDIMENSIONAL_MARKET_TEXT_2: &'static str = "},\
    {+index+:2.0,+column+:3.0,+row+:2.0,+content_column+:2.0,+type+:1.0,+content_row+:2.0,+content+:";
pub const SUBDIMENSIONAL_MARKET_TEXT_3: &'static str = "}],\
    +type+:4.0,+machine_type+:{+name+:+Subdimensional Market+,+type+:4.0,+description+:+Sell any resource for coin. Some are more worth than others.+,+sprite+:52.0,+machine_cost+:{+cost_type_list+:[\
    10.0,11.0,11.0,8.0,8.0,21.0],+cost_amount_list+:[4.0,4.0,3.0,4.0,3.0,2.0]},\
    +cost_input+:0.0,+speed_increase+:4.0,+unlocked+:1.0,+machine_speed+:8.0},+input_list+:[\
    {+index+:0.0,+column+:3.0,+row+:4.0,+content_column+:2.0,+type+:0.0,+content_row+:4.0,+content+:";
pub const SUBDIMENSIONAL_MARKET_TEXT_4: &'static str = ".0}]}\"";
pub const SPLITTER_TEXT_0: &'static str = "-struct=\"{+output_list+:[\
    {+index+:0.0,+column+:0.0,+row+:0.0,+content_column+:-1.0,+type+:1.0,+content_row+:-1.0,+content+:";
pub const SPLITTER_TEXT_1: &'static str = ".0},\
    {+index+:1.0,+column+:0.0,+row+:2.0,+content_column+:-1.0,+type+:1.0,+content_row+:-1.0,+content+:";
pub const SPLITTER_TEXT_2: &'static str = ".0}],\
    +type+:5.0,+machine_type+:{+name+:+Splitter+,+type+:5.0,+description+:+Split an incomming connection into two outputs.+,+sprite+:24.0,+machine_cost+:{+cost_type_list+:[\
    1.0,1.0,5.0,5.0,5.0,5.0,5.0],+cost_amount_list+:[3.0,3.0,3.0,3.0,2.0,2.0,1.0]},\
    +cost_input+:0.0,+speed_increase+:1.0,+unlocked+:1.0,+machine_speed+:-1.0},+input_list+:[\
    {+index+:0.0,+column+:0.0,+row+:1.0,+content_column+:-1.0,+type+:0.0,+content_row+:-1.0,+content+:";
pub const SPLITTER_TEXT_3: &'static str = ".0}]}\"";
pub const MERGER_TEXT_0: &'static str = "-struct=\"{+output_list+:[\
    {+index+:0.0,+column+:0.0,+row+:1.0,+content_column+:-1.0,+type+:1.0,+content_row+:-1.0,+content+:";
pub const MERGER_TEXT_1: &'static str = ".0}],\
    +type+:6.0,+machine_type+:{+name+:+Merger+,+type+:6.0,+description+:+Merges two incomming connections into one output.+,+sprite+:25.0,+machine_cost+:{+cost_type_list+:[\
    1.0,1.0,1.0,1.0,4.0,4.0,5.0,5.0,5.0,5.0,5.0],+cost_amount_list+:[\
    3.0,3.0,2.0,2.0,3.0,2.0,3.0,3.0,2.0,2.0,1.0]},\
    +cost_input+:0.0,+speed_increase+:1.0,+unlocked+:1.0,+machine_speed+:-1.0},+input_list+:[\
    {+index+:0.0,+column+:0.0,+row+:0.0,+content_column+:-1.0,+type+:0.0,+content_row+:-1.0,+content+:";
pub const MERGER_TEXT_2: &'static str = ".0},\
    {+index+:1.0,+column+:0.0,+row+:2.0,+content_column+:-1.0,+type+:0.0,+content_row+:-1.0,+content+:";
pub const MERGER_TEXT_3: &'static str = ".0}]}\"";
pub const STORAGE_VAULT_TEXT_0: &'static str = "-struct=\"{+output_list+:[\
    {+index+:0.0,+column+:4.0,+row+:1.0,+content_column+:4.0,+type+:1.0,+content_row+:0.0,+content+:";
pub const STORAGE_VAULT_TEXT_1: &'static str = ".0}],\
    +type+:7.0,+machine_type+:{+name+:+Storage Vault+,+type+:7.0,+description+:+A machine which keeps your resources safe behind thick glass.+,+sprite+:6.0,+machine_cost+:{+cost_type_list+:[\
    4.0,5.0,5.0,5.0,5.0,5.0],+cost_amount_list+:[3.0,3.0,3.0,2.0,2.0,1.0]},\
    +cost_input+:0.0,+speed_increase+:1.0,+unlocked+:1.0,+machine_speed+:-1.0},+input_list+:[\
    {+index+:0.0,+column+:0.0,+row+:1.0,+content_column+:0.0,+type+:0.0,+content_row+:0.0,+content+:";
pub const STORAGE_VAULT_TEXT_2: &'static str = ".0}]}\"";
pub const ABYSAL_DOOR_TEXT_0: &'static str = "-struct=\"{+output_list+:[],\
    +type+:8.0,+machine_type+:{+name+:+Abysal Door+,+type+:8.0,+description+:+Get rid of all you don't have a need for.+,+sprite+:3.0,+machine_cost+:{+cost_type_list+:[\
    2.0,2.0,2.0,2.0,2.0],+cost_amount_list+:[4.0,3.0,3.0,2.0,1.0]},\
    +cost_input+:0.0,+speed_increase+:4.0,+unlocked+:1.0,+machine_speed+:2.0},+input_list+:[\
    {+index+:0.0,+column+:0.0,+row+:0.0,+content_column+:1.0,+type+:0.0,+content_row+:0.0,+content+:";
pub const ABYSAL_DOOR_TEXT_1: &'static str = ".0}]}\"";
pub const SINGLE_STORAGE_TEXT_0: &'static str = "-struct=\"{+output_list+:[],\
    +type+:9.0,+machine_type+:{+name+:+Single Storage+,+type+:9.0,+description+:+A single storage place for a single resource.+,+sprite+:17.0,+machine_cost+:{+cost_type_list+:[\
    0.0,0.0,0.0,0.0,0.0,0.0,0.0,0.0,0.0,1.0,5.0,5.0,5.0],+cost_amount_list+:[\
    2.0,2.0,2.0,2.0,2.0,2.0,2.0,2.0,1.0,1.0,2.0,2.0,1.0]},\
    +cost_input+:0.0,+speed_increase+:1.0,+unlocked+:1.0,+machine_speed+:-1.0},+input_list+:[\
    {+index+:0.0,+column+:-1.0,+row+:-1.0,+content_column+:0.0,+type+:0.0,+content_row+:0.0,+content+:";
pub const SINGLE_STORAGE_TEXT_1: &'static str = ".0}]}\"";
pub const LABORATORY_TEXT_0: &'static str = "-struct=\"{+output_list+:[],\
    +type+:10.0,+machine_type+:{+name+:+Laboratory+,+type+:10.0,+description+:+Used to research more stuff.+,+sprite+:45.0,+machine_cost+:{+cost_type_list+:[\
    8.0],+cost_amount_list+:[100.0]},\
    +cost_input+:10.0,+speed_increase+:32.0,+unlocked+:0.0,+machine_speed+:4.0},+input_list+:[\
    {+index+:0.0,+column+:0.0,+row+:1.0,+content_column+:0.0,+type+:0.0,+content_row+:0.0,+content+:";
pub const LABORATORY_TEXT_1: &'static str = ".0}]}\"";
pub const RITUAL_INFUSER_TEXT_0: &'static str = "-struct=\"{+output_list+:[\
    {+index+:0.0,+column+:-1.0,+row+:-1.0,+content_column+:2.0,+type+:1.0,+content_row+:3.0,+content+:";
pub const RITUAL_INFUSER_TEXT_1: &'static str = ".0}],\
    +type+:11.0,+machine_type+:{+name+:+Ritual Infuser+,+type+:11.0,+description+:+Automate magical rituals. Used to create the phylactery.+,+sprite+:44.0,+machine_cost+:{+cost_type_list+:[\
    21.0,25.0,25.0,25.0,25.0],+cost_amount_list+:[8.0,2.0,2.0,1.0,1.0]},\
    +cost_input+:0.0,+speed_increase+:1.0,+unlocked+:1.0,+machine_speed+:1.0},+input_list+:[\
    {+index+:0.0,+column+:0.0,+row+:1.0,+content_column+:1.0,+type+:0.0,+content_row+:1.0,+content+:";
pub const RITUAL_INFUSER_TEXT_2: &'static str = ".0},\
    {+index+:1.0,+column+:2.0,+row+:0.0,+content_column+:2.0,+type+:0.0,+content_row+:1.0,+content+:";
pub const RITUAL_INFUSER_TEXT_3: &'static str = ".0},\
    {+index+:2.0,+column+:4.0,+row+:1.0,+content_column+:3.0,+type+:0.0,+content_row+:1.0,+content+:";
pub const RITUAL_INFUSER_TEXT_4: &'static str = ".0}]}\"";
pub const BIG_MERGER_TEXT_0: &'static str = "-struct=\"{+output_list+:[\
    {+index+:0.0,+column+:0.0,+row+:5.0,+content_column+:-1.0,+type+:1,+content_row+:-1.0,+content+:";
pub const BIG_MERGER_TEXT_1: &'static str = ".0}],\
    +type+:12,+machine_type+:{+name+:+Big Merger+,+type+:12,+description+:+Merges Inputs. Lowest always first.+,+sprite+:53,+machine_cost+:{+cost_type_list+:[\
    5,5,5,5,5,5,5],+cost_amount_list+:[3.0,3.0,3.0,2.0,2.0,2.0,1.0]},\
    +cost_input+:0.0,+speed_increase+:1.0,+unlocked+:true,+machine_speed+:-10},+input_list+:[\
    {+index+:0.0,+column+:0.0,+row+:0.0,+content_column+:-1.0,+type+:0,+content_row+:-1.0,+content+:";
pub const BIG_MERGER_TEXT_2: &'static str = ".0},\
    {+index+:1.0,+column+:0.0,+row+:1.0,+content_column+:-1.0,+type+:0,+content_row+:-1.0,+content+:";
pub const BIG_MERGER_TEXT_3: &'static str = ".0},\
    {+index+:2.0,+column+:0.0,+row+:2.0,+content_column+:-1.0,+type+:0,+content_row+:-1.0,+content+:";
pub const BIG_MERGER_TEXT_4: &'static str = ".0},\
    {+index+:3.0,+column+:0.0,+row+:3.0,+content_column+:-1.0,+type+:0,+content_row+:-1.0,+content+:";
pub const BIG_MERGER_TEXT_5: &'static str = ".0},\
    {+index+:4.0,+column+:0.0,+row+:4.0,+content_column+:-1.0,+type+:0,+content_row+:-1.0,+content+:";
pub const BIG_MERGER_TEXT_6: &'static str = ".0}]}\"";
pub const BIG_SPLITTER_TEXT_0: &'static str = "-struct=\"{+output_list+:[\
    {+index+:0.0,+column+:0.0,+row+:0.0,+content_column+:-1.0,+type+:1,+content_row+:-1.0,+content+:";
pub const BIG_SPLITTER_TEXT_1: &'static str = ".0},\
    {+index+:1.0,+column+:0.0,+row+:1.0,+content_column+:-1.0,+type+:1,+content_row+:-1.0,+content+:";
pub const BIG_SPLITTER_TEXT_2: &'static str = ".0},\
    {+index+:2.0,+column+:0.0,+row+:2.0,+content_column+:-1.0,+type+:1,+content_row+:-1.0,+content+:";
pub const BIG_SPLITTER_TEXT_3: &'static str = ".0},\
    {+index+:3.0,+column+:0.0,+row+:3.0,+content_column+:-1.0,+type+:1,+content_row+:-1.0,+content+:";
pub const BIG_SPLITTER_TEXT_4: &'static str = ".0},\
    {+index+:4.0,+column+:0.0,+row+:4.0,+content_column+:-1.0,+type+:1,+content_row+:-1.0,+content+:";
pub const BIG_SPLITTER_TEXT_5: &'static str = ".0}],\
    +type+:13,+machine_type+:{+name+:+Big Splitter+,+type+:13,+description+:+Splits Outputs. Lowest always first.+,+sprite+:22,+machine_cost+:{+cost_type_list+:[\
    5,5,5,5,5,5,5],+cost_amount_list+:[3.0,3.0,3.0,2.0,2.0,2.0,1.0]},\
    +cost_input+:0.0,+speed_increase+:1.0,+unlocked+:true,+machine_speed+:-10},+input_list+:[\
    {+index+:0.0,+column+:0.0,+row+:5.0,+content_column+:-1.0,+type+:0,+content_row+:-1.0,+content+:";
pub const BIG_SPLITTER_TEXT_6: &'static str = ".0}]}\"";

} // verus!
