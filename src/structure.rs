//! A placed machine's own state, and its export records.
use vstd::array::spec_array_fill_for_copy_type;
use vstd::prelude::*;

use crate::catalogue::{object_code, struct_pieces, StructureKind};
use crate::geometry::{HasSize, Size, CELL_SCALE};
use crate::item::{item_code, Item};
use crate::text::{int_text, nat_text, push_int, push_usize};

verus! {

/// One machine instance: its kind, the item held at each port, and for the
/// buffering kinds the contents of its storage.
#[derive(Debug, Clone, Copy, PartialEq, Eq, PartialOrd, Ord, Hash)]
#[allow(inconsistent_fields)]
pub enum StructureData {
    AirPump {
        output: Item,
    },
    Refinery {
        input: Item,
        storage: [Item; 12],
        output: Item,
    },
    Disharmonizer {
        input: Item,
        outputs: [Item; 4],
    },
    Unifier {
        inputs: [Item; 3],
        output: Item,
    },
    SubdimensionalMarket {
        input: Item,
        outputs: [Item; 3],
    },
    Splitter {
        input: Item,
        outputs: [Item; 2],
    },
    Merger {
        inputs: [Item; 2],
        output: Item,
    },
    StorageVault {
        input: Item,
        storage: [Item; 16],
        output: Item,
    },
    AbysalDoor {
        input: Item,
    },
    SingleStorage {
        output: Item,
    },
    Laboratory {
        input: Item,
    },
    RitualInfuser {
        inputs: [Item; 3],
        output: Item,
    },
    BigMerger {
        inputs: [Item; 5],
        output: Item,
    },
    BigSplitter {
        input: Item,
        outputs: [Item; 5],
    },
}

/// The kind of a machine instance.
pub open spec fn data_kind(d: StructureData) -> StructureKind {
    match d {
        StructureData::AirPump { .. } => StructureKind::AirPump,
        StructureData::Refinery { .. } => StructureKind::Refinery,
        StructureData::Disharmonizer { .. } => StructureKind::Disharmonizer,
        StructureData::Unifier { .. } => StructureKind::Unifier,
        StructureData::SubdimensionalMarket { .. } => StructureKind::SubdimensionalMarket,
        StructureData::Splitter { .. } => StructureKind::Splitter,
        StructureData::Merger { .. } => StructureKind::Merger,
        StructureData::StorageVault { .. } => StructureKind::StorageVault,
        StructureData::AbysalDoor { .. } => StructureKind::AbysalDoor,
        StructureData::SingleStorage { .. } => StructureKind::SingleStorage,
        StructureData::Laboratory { .. } => StructureKind::Laboratory,
        StructureData::RitualInfuser { .. } => StructureKind::RitualInfuser,
        StructureData::BigMerger { .. } => StructureKind::BigMerger,
        StructureData::BigSplitter { .. } => StructureKind::BigSplitter,
    }
}

/// The items a kind's `struct` record shows, in the order they are written.
pub open spec fn record_items(d: StructureData) -> Seq<Item> {
    match d {
        StructureData::AirPump { output } => seq![output],
        StructureData::Refinery { input, output, .. } => seq![output, input],
        StructureData::Disharmonizer { input, outputs } => seq![outputs[0], outputs[1], outputs[2], outputs[3], input],
        StructureData::Unifier { inputs, output } => seq![output, inputs[0], inputs[1], inputs[2]],
        StructureData::SubdimensionalMarket { input, outputs } => seq![outputs[0], outputs[1], outputs[2], input],
        StructureData::Splitter { input, outputs } => seq![outputs[0], outputs[1], input],
        StructureData::Merger { inputs, output } => seq![output, inputs[0], inputs[1]],
        StructureData::StorageVault { input, output, .. } => seq![output, input],
        StructureData::AbysalDoor { input } => seq![input],
        StructureData::SingleStorage { output } => seq![output],
        StructureData::Laboratory { input } => seq![input],
        StructureData::RitualInfuser { inputs, output } => seq![output, inputs[0], inputs[1], inputs[2]],
        StructureData::BigMerger { inputs, output } => seq![output, inputs[0], inputs[1], inputs[2], inputs[3], inputs[4]],
        StructureData::BigSplitter { input, outputs } => seq![outputs[0], outputs[1], outputs[2], outputs[3], outputs[4], input],
    }
}

/// The contents of a machine's internal storage; empty for kinds without one.
pub open spec fn storage_of(d: StructureData) -> Seq<Item> {
    match d {
        StructureData::Refinery { storage, .. } => storage@,
        StructureData::StorageVault { storage, .. } => storage@,
        _ => Seq::empty(),
    }
}

/// Whether every port and storage slot of a machine holds `Empty`.
pub open spec fn is_blank(d: StructureData) -> bool {
    &&& forall|i: int| 0 <= i < record_items(d).len() ==> record_items(d)[i] == Item::Empty
    &&& forall|i: int| 0 <= i < storage_of(d).len() ==> storage_of(d)[i] == Item::Empty
}

/// Text pieces with the codes of `items` written between them.
pub open spec fn interleave(pieces: Seq<Seq<char>>, items: Seq<Item>) -> Seq<char>
    decreases items.len(),
{
    if items.len() == 0 {
        if pieces.len() > 0 {
            pieces[0]
        } else {
            Seq::empty()
        }
    } else {
        interleave(pieces.drop_last(), items.drop_last()) + int_text(item_code(items.last()))
            + pieces.last()
    }
}

/// The `struct` record line of machine number `id`.
pub open spec fn struct_line(d: StructureData, id: nat) -> Seq<char> {
    nat_text(id) + interleave(struct_pieces(data_kind(d)), record_items(d)) + "\n"@
}

/// The record line of storage slot `slot` of machine number `id`.
pub open spec fn storage_line(id: nat, slot: nat, item: Item) -> Seq<char> {
    nat_text(id) + "-storage_load_at "@ + nat_text(slot) + "=\""@ + int_text(item_code(item))
        + ".000000\"\n"@
}

/// The record lines of a machine's storage slots, in slot order.
pub open spec fn storage_lines(id: nat, items: Seq<Item>) -> Seq<char>
    decreases items.len(),
{
    if items.len() == 0 {
        Seq::empty()
    } else {
        storage_lines(id, items.drop_last()) + storage_line(
            id,
            (items.len() - 1) as nat,
            items.last(),
        )
    }
}

/// A numeric field line `<id>-<key>="<value>.000000"`.
pub open spec fn value_line(id: nat, key: Seq<char>, value: int) -> Seq<char> {
    nat_text(id) + key + int_text(value) + ".000000\"\n"@
}

/// Every record line of machine number `id` placed at grid cell `(x, y)`.
pub open spec fn machine_text(d: StructureData, id: nat, x: int, y: int) -> Seq<char> {
    struct_line(d, id) + value_line(id, "-y=\""@, y * CELL_SCALE) + value_line(
        id,
        "-x=\""@,
        x * CELL_SCALE,
    ) + value_line(id, "-object=\""@, object_code(data_kind(d))) + storage_lines(
        id,
        storage_of(d),
    )
}

/// Every kind's record text has one more piece than its record shows items.
proof fn lemma_pieces_match_items(d: StructureData)
    ensures
        struct_pieces(data_kind(d)).len() == record_items(d).len() + 1,
{
}

impl StructureData {
    /// The kind of this machine.
    pub fn kind(&self) -> (r: StructureKind)
        ensures
            r == data_kind(*self),
    {
        match self {
            StructureData::AirPump { .. } => StructureKind::AirPump,
            StructureData::Refinery { .. } => StructureKind::Refinery,
            StructureData::Disharmonizer { .. } => StructureKind::Disharmonizer,
            StructureData::Unifier { .. } => StructureKind::Unifier,
            StructureData::SubdimensionalMarket { .. } => StructureKind::SubdimensionalMarket,
            StructureData::Splitter { .. } => StructureKind::Splitter,
            StructureData::Merger { .. } => StructureKind::Merger,
            StructureData::StorageVault { .. } => StructureKind::StorageVault,
            StructureData::AbysalDoor { .. } => StructureKind::AbysalDoor,
            StructureData::SingleStorage { .. } => StructureKind::SingleStorage,
            StructureData::Laboratory { .. } => StructureKind::Laboratory,
            StructureData::RitualInfuser { .. } => StructureKind::RitualInfuser,
            StructureData::BigMerger { .. } => StructureKind::BigMerger,
            StructureData::BigSplitter { .. } => StructureKind::BigSplitter,
        }
    }

    /// The contents of the internal storage; empty for kinds without one.
    pub fn get_storage(&self) -> (r: &[Item])
        ensures
            r@ == storage_of(*self),
    {
        match self {
            StructureData::Refinery { storage, .. } => storage.as_slice(),
            StructureData::StorageVault { storage, .. } => storage.as_slice(),
            _ => &[],
        }
    }

    /// The items this machine's `struct` record shows, in the order written.
    pub fn record_items(&self) -> (r: Vec<Item>)
        ensures
            r@ == record_items(*self),
    {
        match *self {
            StructureData::AirPump { output } => vec![output],
            StructureData::Refinery { input, output, .. } => vec![output, input],
            StructureData::Disharmonizer { input, outputs } => vec![outputs[0], outputs[1], outputs[2], outputs[3], input],
            StructureData::Unifier { inputs, output } => vec![output, inputs[0], inputs[1], inputs[2]],
            StructureData::SubdimensionalMarket { input, outputs } => vec![outputs[0], outputs[1], outputs[2], input],
            StructureData::Splitter { input, outputs } => vec![outputs[0], outputs[1], input],
            StructureData::Merger { inputs, output } => vec![output, inputs[0], inputs[1]],
            StructureData::StorageVault { input, output, .. } => vec![output, input],
            StructureData::AbysalDoor { input } => vec![input],
            StructureData::SingleStorage { output } => vec![output],
            StructureData::Laboratory { input } => vec![input],
            StructureData::RitualInfuser { inputs, output } => vec![output, inputs[0], inputs[1], inputs[2]],
            StructureData::BigMerger { inputs, output } => vec![output, inputs[0], inputs[1], inputs[2], inputs[3], inputs[4]],
            StructureData::BigSplitter { input, outputs } => vec![outputs[0], outputs[1], outputs[2], outputs[3], outputs[4], input],
        }
    }

    fn export_stored_item(out: &mut String, id: usize, item_index: usize, item: Item)
        ensures
            final(out)@ == old(out)@ + storage_line(id as nat, item_index as nat, item),
    {
        push_usize(out, id);
        out.append("-storage_load_at ");
        push_usize(out, item_index);
        out.append("=\"");
        push_int(out, item.code() as i64);
        out.append(".000000\"\n");
        assert(out@ =~= old(out)@ + storage_line(id as nat, item_index as nat, item));
    }

    fn export_value(out: &mut String, id: usize, key: &str, value: i64)
        ensures
            final(out)@ == old(out)@ + value_line(id as nat, key@, value as int),
    {
        push_usize(out, id);
        out.append(key);
        push_int(out, value);
        out.append(".000000\"\n");
        assert(out@ =~= old(out)@ + value_line(id as nat, key@, value as int));
    }

    /// Appends every record line of this machine, numbered `id` and placed at
    /// grid cell `(raw_x, raw_y)`.
    pub fn export(&self, out: &mut String, id: usize, raw_x: i32, raw_y: i32)
        ensures
            final(out)@ == old(out)@ + machine_text(*self, id as nat, raw_x as int, raw_y as int),
    {
        let world_y = raw_y as i64 * CELL_SCALE;
        let world_x = raw_x as i64 * CELL_SCALE;
        let obj_num = self.kind().object_number();
        let ghost start = out@;
        self.export_struct(out, id);
        Self::export_value(out, id, "-y=\"", world_y);
        Self::export_value(out, id, "-x=\"", world_x);
        Self::export_value(out, id, "-object=\"", obj_num as i64);
        let ghost head = out@;
        let storage = self.get_storage();
        let mut i: usize = 0;
        while i < storage.len()
            invariant
                i <= storage@.len(),
                storage@ == storage_of(*self),
                out@ == head + storage_lines(id as nat, storage@.take(i as int)),
            decreases storage@.len() - i,
        {
            let ghost before = out@;
            Self::export_stored_item(out, id, i, storage[i]);
            assert(storage@.take(i + 1).drop_last() =~= storage@.take(i as int));
            i += 1;
        }
        assert(storage@.take(i as int) =~= storage@);
        assert(out@ =~= old(out)@ + machine_text(*self, id as nat, raw_x as int, raw_y as int));
    }

    /// Appends the `struct` record line of this machine, numbered `id`.
    fn export_struct(&self, out: &mut String, id: usize)
        ensures
            final(out)@ == old(out)@ + struct_line(*self, id as nat),
    {
        let pieces = self.kind().struct_template();
        let items = self.record_items();
        proof {
            lemma_pieces_match_items(*self);
        }
        let ghost ps = struct_pieces(data_kind(*self));
        push_usize(out, id);
        let ghost head = out@;
        out.append(pieces[0]);
        assert(ps.take(1).len() == 1);
        assert(interleave(ps.take(1), items@.take(0)) == ps[0]);
        let mut i: usize = 0;
        while i < items.len()
            invariant
                i <= items@.len(),
                items@ == record_items(*self),
                pieces@.len() == ps.len(),
                ps.len() == items@.len() + 1,
                forall|j: int| 0 <= j < pieces@.len() ==> #[trigger] pieces@[j]@ == ps[j],
                out@ == head + interleave(ps.take(i + 1), items@.take(i as int)),
            decreases items@.len() - i,
        {
            push_int(out, items[i].code() as i64);
            out.append(pieces[i + 1]);
            assert(ps.take(i + 2).drop_last() =~= ps.take(i + 1));
            assert(items@.take(i + 1).drop_last() =~= items@.take(i as int));
            i += 1;
        }
        assert(ps.take(i + 1) =~= ps);
        assert(items@.take(i as int) =~= items@);
        out.append("\n");
        assert(out@ =~= old(out)@ + struct_line(*self, id as nat));
    }
}

/// A machine of the given kind with every port and storage slot empty.
pub open spec fn blank_data(kind: StructureKind) -> StructureData {
    match kind {
        StructureKind::AirPump => StructureData::AirPump { output: Item::Empty },
        StructureKind::Refinery => StructureData::Refinery {
            input: Item::Empty,
            storage: spec_array_fill_for_copy_type::<Item, 12>(Item::Empty),
            output: Item::Empty,
        },
        StructureKind::Disharmonizer => StructureData::Disharmonizer {
            input: Item::Empty,
            outputs: spec_array_fill_for_copy_type::<Item, 4>(Item::Empty),
        },
        StructureKind::Unifier => StructureData::Unifier {
            inputs: spec_array_fill_for_copy_type::<Item, 3>(Item::Empty),
            output: Item::Empty,
        },
        StructureKind::SubdimensionalMarket => StructureData::SubdimensionalMarket {
            input: Item::Empty,
            outputs: spec_array_fill_for_copy_type::<Item, 3>(Item::Empty),
        },
        StructureKind::Splitter => StructureData::Splitter {
            input: Item::Empty,
            outputs: spec_array_fill_for_copy_type::<Item, 2>(Item::Empty),
        },
        StructureKind::Merger => StructureData::Merger {
            inputs: spec_array_fill_for_copy_type::<Item, 2>(Item::Empty),
            output: Item::Empty,
        },
        StructureKind::StorageVault => StructureData::StorageVault {
            input: Item::Empty,
            storage: spec_array_fill_for_copy_type::<Item, 16>(Item::Empty),
            output: Item::Empty,
        },
        StructureKind::AbysalDoor => StructureData::AbysalDoor { input: Item::Empty },
        StructureKind::SingleStorage => StructureData::SingleStorage { output: Item::Empty },
        StructureKind::Laboratory => StructureData::Laboratory { input: Item::Empty },
        StructureKind::RitualInfuser => StructureData::RitualInfuser {
            inputs: spec_array_fill_for_copy_type::<Item, 3>(Item::Empty),
            output: Item::Empty,
        },
        StructureKind::BigMerger => StructureData::BigMerger {
            inputs: spec_array_fill_for_copy_type::<Item, 5>(Item::Empty),
            output: Item::Empty,
        },
        StructureKind::BigSplitter => StructureData::BigSplitter {
            input: Item::Empty,
            outputs: spec_array_fill_for_copy_type::<Item, 5>(Item::Empty),
        },
    }
}

impl From<StructureKind> for StructureData {
    fn from(value: StructureKind) -> (r: StructureData)
        ensures
            r == blank_data(value),
    {
        match value {
            StructureKind::AirPump => StructureData::AirPump { output: Item::Empty },
            StructureKind::Refinery => StructureData::Refinery {
                input: Item::Empty,
                storage: [Item::Empty; 12],
                output: Item::Empty,
            },
            StructureKind::Disharmonizer => StructureData::Disharmonizer {
                input: Item::Empty,
                outputs: [Item::Empty; 4],
            },
            StructureKind::Unifier => StructureData::Unifier {
                inputs: [Item::Empty; 3],
                output: Item::Empty,
            },
            StructureKind::SubdimensionalMarket => StructureData::SubdimensionalMarket {
                input: Item::Empty,
                outputs: [Item::Empty; 3],
            },
            StructureKind::Splitter => StructureData::Splitter {
                input: Item::Empty,
                outputs: [Item::Empty; 2],
            },
            StructureKind::Merger => StructureData::Merger {
                inputs: [Item::Empty; 2],
                output: Item::Empty,
            },
            StructureKind::StorageVault => StructureData::StorageVault {
                input: Item::Empty,
                storage: [Item::Empty; 16],
                output: Item::Empty,
            },
            StructureKind::AbysalDoor => StructureData::AbysalDoor { input: Item::Empty },
            StructureKind::SingleStorage => StructureData::SingleStorage { output: Item::Empty },
            StructureKind::Laboratory => StructureData::Laboratory { input: Item::Empty },
            StructureKind::RitualInfuser => StructureData::RitualInfuser {
                inputs: [Item::Empty; 3],
                output: Item::Empty,
            },
            StructureKind::BigMerger => StructureData::BigMerger {
                inputs: [Item::Empty; 5],
                output: Item::Empty,
            },
            StructureKind::BigSplitter => StructureData::BigSplitter {
                input: Item::Empty,
                outputs: [Item::Empty; 5],
            },
        }
    }
}

impl vstd::std_specs::convert::FromSpecImpl<StructureKind> for StructureData {
    open spec fn obeys_from_spec() -> bool {
        true
    }

    open spec fn from_spec(v: StructureKind) -> StructureData {
        blank_data(v)
    }
}

/// A blank machine of a kind has that kind and holds only `Empty`.
pub proof fn lemma_blank_data(kind: StructureKind)
    ensures
        data_kind(blank_data(kind)) == kind,
        is_blank(blank_data(kind)),
{
}

impl HasSize for StructureData {
    open spec fn footprint(&self) -> Size {
        data_kind(*self).footprint()
    }

    fn size(&self) -> (r: Size) {
        self.kind().size()
    }
}

} // verus!
