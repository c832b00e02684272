//! Worlds: identity-tagged, append-only lists of placed machines and of the
//! wires between their ports.
use vstd::prelude::*;

use crate::catalogue::{input_offsets, kind_size, output_offsets, StructureKind};
use crate::geometry::{can_shift, shift, HasSize, Offset, Position, Size};
use crate::structure::{blank_data, data_kind, lemma_blank_data, StructureData};

verus! {

/// Why a layout operation was refused.
#[derive(Debug, Clone, Copy, PartialEq, Eq, Structural, Hash)]
pub enum LayoutError {
    /// A handle was minted by another world than the one it is used with.
    WorldMismatch,
    /// A port number past the kind's port list.
    PortOutOfRange,
    /// A port slot that the kind leaves without a connector.
    NoSuchPort,
    /// A structure index past the world's structure list.
    StructureNotFound,
}

/// The identity of a world. Compared by equality only.
#[derive(Debug, Clone, Copy, PartialEq, Eq, Structural, PartialOrd, Ord, Hash)]
pub struct WorldId {
    pub(crate) id: u64,
}

impl WorldId {
    /// The serial number under which the registry issued this identity.
    pub open(crate) spec fn serial(&self) -> nat {
        self.id as nat
    }
}

/// Issues world identities; each one it issues differs from all earlier ones.
/// A program keeps one registry and creates every world through it.
pub struct WorldRegistry {
    pub(crate) next: u64,
}

impl WorldRegistry {
    /// How many identities this registry has issued.
    pub open(crate) spec fn issued(&self) -> nat {
        self.next as nat
    }

    /// A registry that has issued nothing yet.
    pub fn new() -> (r: WorldRegistry)
        ensures
            r.issued() == 0,
    {
        WorldRegistry { next: 0 }
    }

    /// Whether another identity can be issued.
    pub fn can_issue(&self) -> (r: bool)
        ensures
            r == (self.issued() < u64::MAX),
    {
        self.next < u64::MAX
    }

    /// Issues the next identity.
    fn new_world_id(&mut self) -> (r: WorldId)
        requires
            old(self).issued() < u64::MAX,
        ensures
            r.serial() == old(self).issued(),
            final(self).issued() == old(self).issued() + 1,
    {
        let id = self.next;
        self.next = self.next + 1;
        WorldId { id }
    }
}

/// Identities with different serial numbers are different.
pub proof fn lemma_serials_distinguish(a: WorldId, b: WorldId)
    requires
        a.serial() != b.serial(),
    ensures
        a != b,
{
}

/// A machine together with the grid cell where it was placed.
#[derive(Debug, Clone, Copy, PartialEq, Eq, PartialOrd, Ord, Hash)]
pub struct PositionedStructureData {
    pub pos: Position,
    pub structure: StructureData,
}

/// A wire between two absolute grid cells, fixed when it was made.
#[derive(Debug, Clone, Copy, PartialEq, Eq, Structural, PartialOrd, Ord, Hash)]
pub struct DirectConnection {
    pub src: Position,
    pub dst: Position,
}

/// The handle of a placed machine: the world that placed it, its index in
/// that world's structure list, and its kind.
#[derive(Debug, Clone, Copy, PartialEq, Eq, Structural, PartialOrd, Ord, Hash)]
pub struct Structure {
    pub(crate) world_id: WorldId,
    pub(crate) index: usize,
    pub(crate) kind: StructureKind,
}

/// An input port of a placed machine, with its kind-relative offset.
#[derive(Debug, Clone, Copy, PartialEq, Eq, Structural, PartialOrd, Ord, Hash)]
pub struct PortIn {
    pub(crate) structure_id: Structure,
    pub(crate) offset: Offset,
}

/// An output port of a placed machine, with its kind-relative offset.
#[derive(Debug, Clone, Copy, PartialEq, Eq, Structural, PartialOrd, Ord, Hash)]
pub struct PortOut {
    pub(crate) structure_id: Structure,
    pub(crate) offset: Offset,
}

/// What a world holds.
pub struct WorldModel {
    pub id: WorldId,
    pub structures: Seq<PositionedStructureData>,
    pub connections: Seq<DirectConnection>,
}

/// A layout: placed machines and wires, both only ever appended to.
pub struct World {
    pub(crate) world_id: WorldId,
    pub(crate) structures: Vec<PositionedStructureData>,
    pub(crate) connections: Vec<DirectConnection>,
}

impl View for World {
    type V = WorldModel;

    open spec fn view(&self) -> WorldModel {
        self.model()
    }
}

impl World {
    pub open(crate) spec fn model(&self) -> WorldModel {
        WorldModel { id: self.world_id, structures: self.structures@, connections: self.connections@ }
    }
}

impl Structure {
    pub open(crate) spec fn spec_world_id(&self) -> WorldId {
        self.world_id
    }

    pub open(crate) spec fn spec_index(&self) -> nat {
        self.index as nat
    }

    pub open(crate) spec fn spec_kind(&self) -> StructureKind {
        self.kind
    }

    /// The world that placed this machine.
    #[verifier::when_used_as_spec(spec_world_id)]
    pub fn world_id(&self) -> (r: WorldId)
        ensures
            r == self.spec_world_id(),
    {
        self.world_id
    }

    /// The index of this machine in its world's structure list.
    pub fn index(&self) -> (r: usize)
        ensures
            r as nat == self.spec_index(),
    {
        self.index
    }

    /// The kind of this machine.
    #[verifier::when_used_as_spec(spec_kind)]
    pub fn kind(&self) -> (r: StructureKind)
        ensures
            r == self.spec_kind(),
    {
        self.kind
    }

    /// Input port number `port` of this machine.
    pub fn input(self, port: usize) -> (r: Result<PortIn, LayoutError>)
        ensures
            port >= input_offsets(self.kind()).len() ==> r == Err::<PortIn, LayoutError>(
                LayoutError::PortOutOfRange,
            ),
            port < input_offsets(self.kind()).len() && input_offsets(self.kind())[port as int]
                == Offset::spec_null() ==> r == Err::<PortIn, LayoutError>(LayoutError::NoSuchPort),
            port < input_offsets(self.kind()).len() && input_offsets(self.kind())[port as int]
                != Offset::spec_null() ==> r is Ok && r->Ok_0.structure() == self
                && r->Ok_0.offset() == input_offsets(self.kind())[port as int],
    {
        let inputs = self.kind.connectors().inputs;
        if port >= inputs.len() {
            return Err(LayoutError::PortOutOfRange);
        }
        let offset = inputs[port];
        if !offset.non_null() {
            return Err(LayoutError::NoSuchPort);
        }
        Ok(PortIn { structure_id: self, offset })
    }

    /// Output port number `port` of this machine.
    pub fn output(self, port: usize) -> (r: Result<PortOut, LayoutError>)
        ensures
            port >= output_offsets(self.kind()).len() ==> r == Err::<PortOut, LayoutError>(
                LayoutError::PortOutOfRange,
            ),
            port < output_offsets(self.kind()).len() && output_offsets(self.kind())[port as int]
                == Offset::spec_null() ==> r == Err::<PortOut, LayoutError>(LayoutError::NoSuchPort),
            port < output_offsets(self.kind()).len() && output_offsets(self.kind())[port as int]
                != Offset::spec_null() ==> r is Ok && r->Ok_0.structure() == self
                && r->Ok_0.offset() == output_offsets(self.kind())[port as int],
    {
        let outputs = self.kind.connectors().outputs;
        if port >= outputs.len() {
            return Err(LayoutError::PortOutOfRange);
        }
        let offset = outputs[port];
        if !offset.non_null() {
            return Err(LayoutError::NoSuchPort);
        }
        Ok(PortOut { structure_id: self, offset })
    }
}

impl HasSize for Structure {
    open spec fn footprint(&self) -> Size {
        kind_size(self.kind())
    }

    fn size(&self) -> (r: Size) {
        self.kind.size()
    }
}

impl PortIn {
    pub open(crate) spec fn spec_structure(&self) -> Structure {
        self.structure_id
    }

    pub open(crate) spec fn spec_offset(&self) -> Offset {
        self.offset
    }

    /// The machine this port belongs to.
    #[verifier::when_used_as_spec(spec_structure)]
    pub fn structure(&self) -> (r: Structure)
        ensures
            r == self.spec_structure(),
    {
        self.structure_id
    }

    /// The port's offset relative to its machine's cell.
    #[verifier::when_used_as_spec(spec_offset)]
    pub fn offset(&self) -> (r: Offset)
        ensures
            r == self.spec_offset(),
    {
        self.offset
    }
}

impl PortOut {
    pub open(crate) spec fn spec_structure(&self) -> Structure {
        self.structure_id
    }

    pub open(crate) spec fn spec_offset(&self) -> Offset {
        self.offset
    }

    /// The machine this port belongs to.
    #[verifier::when_used_as_spec(spec_structure)]
    pub fn structure(&self) -> (r: Structure)
        ensures
            r == self.spec_structure(),
    {
        self.structure_id
    }

    /// The port's offset relative to its machine's cell.
    #[verifier::when_used_as_spec(spec_offset)]
    pub fn offset(&self) -> (r: Offset)
        ensures
            r == self.spec_offset(),
    {
        self.offset
    }
}

/// Whether `s` is a machine of world `w`: minted by it, and within its list.
pub open spec fn holds(w: WorldModel, s: Structure) -> bool {
    s.world_id() == w.id && s.spec_index() < w.structures.len()
}

/// `w` with `item` appended to its structures.
pub open spec fn after_place(w: WorldModel, item: PositionedStructureData) -> WorldModel {
    WorldModel { structures: w.structures.push(item), ..w }
}

/// `w` after placing each of `items` in turn.
pub open spec fn placements(w: WorldModel, items: Seq<PositionedStructureData>) -> WorldModel
    decreases items.len(),
{
    if items.len() == 0 {
        w
    } else {
        after_place(placements(w, items.drop_last()), items.last())
    }
}

/// The absolute grid cell of a port at offset `off` on machine `s` of `w`.
pub open spec fn port_cell(w: WorldModel, s: Structure, off: Offset) -> Position {
    shift(w.structures[s.spec_index() as int].pos, off)
}

/// Whether the absolute cell of a port at offset `off` on machine `s` of `w`
/// lies on the `i32` grid.
pub open spec fn port_fits(w: WorldModel, s: Structure, off: Offset) -> bool {
    can_shift(w.structures[s.spec_index() as int].pos, off)
}

/// How `connect` answers: a foreign port is a world mismatch, then an index
/// past the structure list is a missing structure.
pub open spec fn connect_outcome(w: WorldModel, source: PortOut, destination: PortIn) -> Result<
    (),
    LayoutError,
> {
    if source.structure().world_id() != w.id || destination.structure().world_id() != w.id {
        Err(LayoutError::WorldMismatch)
    } else if source.structure().spec_index() >= w.structures.len()
        || destination.structure().spec_index() >= w.structures.len() {
        Err(LayoutError::StructureNotFound)
    } else {
        Ok(())
    }
}

/// Whether both ends of an accepted connection lie on the `i32` grid.
pub open spec fn connect_fits(w: WorldModel, source: PortOut, destination: PortIn) -> bool {
    connect_outcome(w, source, destination) is Ok ==> port_fits(
        w,
        source.structure(),
        source.offset(),
    ) && port_fits(w, destination.structure(), destination.offset())
}

/// The wire that `connect` records.
pub open spec fn wire(w: WorldModel, source: PortOut, destination: PortIn) -> DirectConnection {
    DirectConnection {
        src: port_cell(w, source.structure(), source.offset()),
        dst: port_cell(w, destination.structure(), destination.offset()),
    }
}

/// What can be placed in a world at a grid cell, and the handle it yields.
pub trait Placeable: Sized {
    type Id;

    /// Whether placing this in `w` at `(x, y)` stays within machine limits.
    spec fn can_place(&self, w: WorldModel, x: i32, y: i32) -> bool;

    /// Whether `after` and `id` are what placing this in `before` at `(x, y)` gives.
    spec fn placed(&self, before: WorldModel, x: i32, y: i32, after: WorldModel, id: Self::Id) -> bool;

    /// Places this in `world` with its origin at `(x, y)`.
    fn place_in(self, world: &mut World, x: i32, y: i32) -> (id: Self::Id)
        requires
            self.can_place(old(world)@, x, y),
        ensures
            self.placed(old(world)@, x, y, final(world)@, id),
    ;
}

impl World {
    /// An empty world with an identity that `registry` has not issued before.
    pub fn new(registry: &mut WorldRegistry) -> (r: World)
        requires
            old(registry).issued() < u64::MAX,
        ensures
            r@.id.serial() == old(registry).issued(),
            final(registry).issued() == old(registry).issued() + 1,
            r@.structures.len() == 0,
            r@.connections.len() == 0,
    {
        World { world_id: registry.new_world_id(), structures: Vec::new(), connections: Vec::new() }
    }

    /// This world's identity.
    pub fn id(&self) -> (r: WorldId)
        ensures
            r == self@.id,
    {
        self.world_id
    }

    /// The number of machines placed so far.
    pub fn structure_count(&self) -> (r: usize)
        ensures
            r == self@.structures.len(),
    {
        self.structures.len()
    }

    /// Places one machine at `(x, y)`; its handle carries the next index.
    pub fn place_structure(&mut self, structure: StructureData, x: i32, y: i32) -> (r: Structure)
        ensures
            final(self)@ == after_place(
                old(self)@,
                PositionedStructureData { pos: Position { x, y }, structure },
            ),
            r.world_id() == old(self)@.id,
            r.spec_index() == old(self)@.structures.len(),
            r.kind() == data_kind(structure),
    {
        let id = Structure { world_id: self.world_id, index: self.structures.len(), kind: structure.kind() };
        self.structures.push(PositionedStructureData { pos: Position { x, y }, structure });
        id
    }

    /// Places a machine, a whole world, or a blueprint at `(x, y)`.
    pub fn place<P: Placeable>(&mut self, object: P, x: i32, y: i32) -> (r: P::Id)
        requires
            object.can_place(old(self)@, x, y),
        ensures
            object.placed(old(self)@, x, y, final(self)@, r),
    {
        object.place_in(self, x, y)
    }

    /// The placed machine that `structure` names.
    pub fn get_structure(&self, structure: Structure) -> (r: Result<&PositionedStructureData, LayoutError>)
        ensures
            structure.world_id() != self@.id ==> r == Err::<&PositionedStructureData, LayoutError>(
                LayoutError::WorldMismatch,
            ),
            structure.world_id() == self@.id && structure.spec_index() >= self@.structures.len()
                ==> r == Err::<&PositionedStructureData, LayoutError>(
                LayoutError::StructureNotFound,
            ),
            holds(self@, structure) ==> r is Ok && *r->Ok_0 == self@.structures[structure.spec_index() as int],
    {
        if structure.world_id != self.world_id {
            return Err(LayoutError::WorldMismatch);
        }
        if structure.index >= self.structures.len() {
            return Err(LayoutError::StructureNotFound);
        }
        Ok(&self.structures[structure.index])
    }

    /// Whether `connect` can compute both ends of this wire on the `i32` grid.
    pub fn can_connect(&self, source: PortOut, destination: PortIn) -> (r: bool)
        ensures
            r == connect_fits(self@, source, destination),
    {
        if source.structure_id.world_id != self.world_id
            || destination.structure_id.world_id != self.world_id
            || source.structure_id.index >= self.structures.len()
            || destination.structure_id.index >= self.structures.len() {
            return true;
        }
        self.structures[source.structure_id.index].pos.can_shift(source.offset)
            && self.structures[destination.structure_id.index].pos.can_shift(destination.offset)
    }

    /// Records a wire from `source` to `destination`, both ports of machines
    /// of this world, between their absolute grid cells.
    pub fn connect(&mut self, source: PortOut, destination: PortIn) -> (r: Result<(), LayoutError>)
        requires
            connect_fits(old(self)@, source, destination),
        ensures
            r == connect_outcome(old(self)@, source, destination),
            r is Ok ==> final(self)@ == (WorldModel {
                connections: old(self)@.connections.push(wire(old(self)@, source, destination)),
                ..old(self)@
            }),
            r is Err ==> final(self)@ == old(self)@,
    {
        if source.structure_id.world_id != self.world_id
            || destination.structure_id.world_id != self.world_id {
            return Err(LayoutError::WorldMismatch);
        }
        let src = match self.get_structure(source.structure_id) {
            Ok(s) => s.pos,
            Err(e) => return Err(e),
        };
        let dst = match self.get_structure(destination.structure_id) {
            Ok(s) => s.pos,
            Err(e) => return Err(e),
        };
        let connection = DirectConnection {
            src: src.shifted(source.offset),
            dst: dst.shifted(destination.offset),
        };
        self.connections.push(connection);
        Ok(())
    }
}

impl Placeable for StructureData {
    type Id = Structure;

    open spec fn can_place(&self, w: WorldModel, x: i32, y: i32) -> bool {
        true
    }

    open spec fn placed(&self, before: WorldModel, x: i32, y: i32, after: WorldModel, id: Structure) -> bool {
        &&& after == after_place(before, PositionedStructureData { pos: Position { x, y }, structure: *self })
        &&& id.world_id() == before.id
        &&& id.spec_index() == before.structures.len()
        &&& id.kind() == data_kind(*self)
    }

    fn place_in(self, world: &mut World, x: i32, y: i32) -> (id: Structure) {
        world.place_structure(self, x, y)
    }
}

impl Placeable for StructureKind {
    type Id = Structure;

    open spec fn can_place(&self, w: WorldModel, x: i32, y: i32) -> bool {
        true
    }

    open spec fn placed(&self, before: WorldModel, x: i32, y: i32, after: WorldModel, id: Structure) -> bool {
        &&& after == after_place(
            before,
            PositionedStructureData { pos: Position { x, y }, structure: blank_data(*self) },
        )
        &&& id.world_id() == before.id
        &&& id.spec_index() == before.structures.len()
        &&& id.kind() == *self
    }

    fn place_in(self, world: &mut World, x: i32, y: i32) -> (id: Structure) {
        proof {
            lemma_blank_data(self);
        }
        world.place_structure(StructureData::from(self), x, y)
    }
}

/// Placing machines one after another appends them in order: the machine
/// placed `i`-th gets index `n + i`, where `n` is how many the world held
/// before, and the count grows by one with each.
pub proof fn lemma_sequential_placement(w: WorldModel, items: Seq<PositionedStructureData>)
    ensures
        placements(w, items).structures == w.structures + items,
        placements(w, items).id == w.id,
        placements(w, items).connections == w.connections,
        forall|i: int|
            0 <= i <= items.len() ==> #[trigger] placements(w, items.take(i)).structures.len()
                == w.structures.len() + i,
    decreases items.len(),
{
    if items.len() > 0 {
        lemma_sequential_placement(w, items.drop_last());
        assert(w.structures + items == (w.structures + items.drop_last()).push(items.last()));
    } else {
        assert(w.structures + items == w.structures);
    }
    assert forall|i: int| 0 <= i <= items.len() implies #[trigger] placements(w, items.take(i)).structures.len()
        == w.structures.len() + i by {
        lemma_placement_count(w, items.take(i));
    }
}

proof fn lemma_placement_count(w: WorldModel, items: Seq<PositionedStructureData>)
    ensures
        placements(w, items).structures.len() == w.structures.len() + items.len(),
    decreases items.len(),
{
    if items.len() > 0 {
        lemma_placement_count(w, items.drop_last());
    }
}

/// A port of another world is never wired: `connect` answers with a world
/// mismatch whenever either end was minted elsewhere.
pub proof fn lemma_foreign_port_rejected(w: WorldModel, source: PortOut, destination: PortIn)
    requires
        source.structure().world_id() != w.id || destination.structure().world_id() != w.id,
    ensures
        connect_outcome(w, source, destination) == Err::<(), LayoutError>(LayoutError::WorldMismatch),
{
}

} // verus!
