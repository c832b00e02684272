//! Composition: pasting one world into another, relocating handles from the
//! pasted world into the host, and blueprints with declared ports.
use vstd::prelude::*;

use crate::geometry::{can_shift, fits_i32, shift, HasSize, Offset, Size};
use crate::world::{
    after_place, holds, port_cell, DirectConnection, LayoutError, Placeable, PortIn, PortOut,
    PositionedStructureData, Structure, World, WorldId, WorldModel,
};

verus! {

/// How a world was pasted into a host: which world, into which host, the
/// host index its first machine got, and the offset it was moved by.
#[derive(Debug, Clone, Copy, PartialEq, Eq, Structural, PartialOrd, Ord, Hash)]
pub struct PastedWorld {
    pub(crate) blueprint_id: WorldId,
    pub(crate) host_id: WorldId,
    pub(crate) base_index: usize,
    pub(crate) offset: Offset,
}

impl PastedWorld {
    pub open(crate) spec fn spec_blueprint_id(&self) -> WorldId {
        self.blueprint_id
    }

    pub open(crate) spec fn spec_host_id(&self) -> WorldId {
        self.host_id
    }

    pub open(crate) spec fn spec_base_index(&self) -> nat {
        self.base_index as nat
    }

    pub open(crate) spec fn spec_offset(&self) -> Offset {
        self.offset
    }

    /// The world that was pasted.
    #[verifier::when_used_as_spec(spec_blueprint_id)]
    pub fn blueprint_id(&self) -> (r: WorldId)
        ensures
            r == self.spec_blueprint_id(),
    {
        self.blueprint_id
    }

    /// The world it was pasted into.
    #[verifier::when_used_as_spec(spec_host_id)]
    pub fn host_id(&self) -> (r: WorldId)
        ensures
            r == self.spec_host_id(),
    {
        self.host_id
    }

    /// The host index of the pasted world's first machine.
    pub fn base_index(&self) -> (r: usize)
        ensures
            r as nat == self.spec_base_index(),
    {
        self.base_index
    }

    /// The offset the pasted world was moved by.
    #[verifier::when_used_as_spec(spec_offset)]
    pub fn offset(&self) -> (r: Offset)
        ensures
            r == self.spec_offset(),
    {
        self.offset
    }

    /// The host-side equivalent of `entity`, a handle of the pasted world.
    pub fn get<E: Entity>(&self, entity: E) -> (r: Result<E, LayoutError>)
        requires
            entity.world_of() == self.blueprint_id() ==> entity.index_of() + self.spec_base_index()
                <= usize::MAX,
        ensures
            entity.world_of() == self.blueprint_id() ==> r is Ok && entity.relocated(
                *self,
                r->Ok_0,
            ),
            entity.world_of() != self.blueprint_id() ==> r == Err::<E, LayoutError>(
                LayoutError::WorldMismatch,
            ),
    {
        entity.inside(self)
    }
}

/// A handle that names something inside one world, and can be carried over
/// into a host that world was pasted into.
pub trait Entity: Sized {
    /// The world the handle belongs to.
    spec fn world_of(&self) -> WorldId;

    /// The structure index the handle refers to.
    spec fn index_of(&self) -> nat;

    /// Whether `moved` is this handle carried over through `pasted`.
    spec fn relocated(&self, pasted: PastedWorld, moved: Self) -> bool;

    /// The world the handle belongs to.
    fn get_world_id(&self) -> (r: WorldId)
        ensures
            r == self.world_of(),
    ;

    /// Carries the handle over, without checking where it belongs.
    fn map_inside(&self, pasted: &PastedWorld) -> (r: Self)
        requires
            self.index_of() + pasted.spec_base_index() <= usize::MAX,
        ensures
            self.relocated(*pasted, r),
    ;

    /// Carries the handle over, refusing one of another world than the one pasted.
    fn inside(&self, pasted: &PastedWorld) -> (r: Result<Self, LayoutError>)
        requires
            self.world_of() == pasted.blueprint_id() ==> self.index_of() + pasted.spec_base_index()
                <= usize::MAX,
        ensures
            self.world_of() == pasted.blueprint_id() ==> r is Ok && self.relocated(*pasted, r->Ok_0),
            self.world_of() != pasted.blueprint_id() ==> r == Err::<Self, LayoutError>(
                LayoutError::WorldMismatch,
            ),
    {
        if self.get_world_id() == pasted.blueprint_id {
            Ok(self.map_inside(pasted))
        } else {
            Err(LayoutError::WorldMismatch)
        }
    }
}

/// Whether `moved` is machine `s` carried over through `pasted`: same kind,
/// now in the host, shifted by the base index.
pub open spec fn structure_relocated(s: Structure, pasted: PastedWorld, moved: Structure) -> bool {
    &&& moved.world_id() == pasted.host_id()
    &&& moved.spec_index() == s.spec_index() + pasted.spec_base_index()
    &&& moved.kind() == s.kind()
}

impl Entity for Structure {
    open spec fn world_of(&self) -> WorldId {
        self.world_id()
    }

    open spec fn index_of(&self) -> nat {
        self.spec_index()
    }

    open spec fn relocated(&self, pasted: PastedWorld, moved: Structure) -> bool {
        structure_relocated(*self, pasted, moved)
    }

    fn get_world_id(&self) -> (r: WorldId) {
        self.world_id
    }

    fn map_inside(&self, pasted: &PastedWorld) -> (r: Structure) {
        Structure {
            world_id: pasted.host_id,
            index: self.index + pasted.base_index,
            kind: self.kind,
        }
    }
}

impl Entity for PortIn {
    open spec fn world_of(&self) -> WorldId {
        self.structure().world_id()
    }

    open spec fn index_of(&self) -> nat {
        self.structure().spec_index()
    }

    /// Ports keep their kind-relative offset; only their machine moves.
    open spec fn relocated(&self, pasted: PastedWorld, moved: PortIn) -> bool {
        structure_relocated(self.structure(), pasted, moved.structure()) && moved.offset()
            == self.offset()
    }

    fn get_world_id(&self) -> (r: WorldId) {
        self.structure_id.world_id
    }

    fn map_inside(&self, pasted: &PastedWorld) -> (r: PortIn) {
        PortIn { structure_id: self.structure_id.map_inside(pasted), offset: self.offset }
    }
}

impl Entity for PortOut {
    open spec fn world_of(&self) -> WorldId {
        self.structure().world_id()
    }

    open spec fn index_of(&self) -> nat {
        self.structure().spec_index()
    }

    /// Ports keep their kind-relative offset; only their machine moves.
    open spec fn relocated(&self, pasted: PastedWorld, moved: PortOut) -> bool {
        structure_relocated(self.structure(), pasted, moved.structure()) && moved.offset()
            == self.offset()
    }

    fn get_world_id(&self) -> (r: WorldId) {
        self.structure_id.world_id
    }

    fn map_inside(&self, pasted: &PastedWorld) -> (r: PortOut) {
        PortOut { structure_id: self.structure_id.map_inside(pasted), offset: self.offset }
    }
}

/// A placed machine moved by `o`.
pub open spec fn shift_structure(s: PositionedStructureData, o: Offset) -> PositionedStructureData {
    PositionedStructureData { pos: shift(s.pos, o), structure: s.structure }
}

/// A wire moved by `o`.
pub open spec fn shift_connection(c: DirectConnection, o: Offset) -> DirectConnection {
    DirectConnection { src: shift(c.src, o), dst: shift(c.dst, o) }
}

/// Whether both ends of a wire moved by `o` stay on the `i32` grid.
pub open spec fn wire_can_shift(c: DirectConnection, o: Offset) -> bool {
    can_shift(c.src, o) && can_shift(c.dst, o)
}

/// Whether every cell of `w` moved by `o` stays on the `i32` grid.
pub open spec fn can_paste(w: WorldModel, o: Offset) -> bool {
    &&& forall|i: int| 0 <= i < w.structures.len() ==> can_shift(#[trigger] w.structures[i].pos, o)
    &&& forall|i: int| 0 <= i < w.connections.len() ==> wire_can_shift(#[trigger] w.connections[i], o)
}

/// `host` after a copy of `w` moved by `o` is appended to it.
pub open spec fn after_paste(host: WorldModel, w: WorldModel, o: Offset) -> WorldModel {
    WorldModel {
        id: host.id,
        structures: host.structures + w.structures.map_values(|s| shift_structure(s, o)),
        connections: host.connections + w.connections.map_values(|c| shift_connection(c, o)),
    }
}

/// Whether `p` describes pasting `w` into `host` moved by `o`.
pub open spec fn describes_paste(p: PastedWorld, host: WorldModel, w: WorldModel, o: Offset) -> bool {
    &&& p.blueprint_id() == w.id
    &&& p.host_id() == host.id
    &&& p.spec_base_index() == host.structures.len()
    &&& p.offset() == o
}

/// The offset of copy number `i` of a stack that starts at `(x, y)` and
/// advances by `(dx, dy)`.
pub open spec fn stack_offset(x: i32, y: i32, dx: i32, dy: i32, i: int) -> Offset {
    Offset { x: (x + i * dx) as i32, y: (y + i * dy) as i32 }
}

/// Whether copy number `i` of a stack of `w` stays on the `i32` grid.
pub open spec fn stack_fits(w: WorldModel, x: i32, y: i32, dx: i32, dy: i32, i: int) -> bool {
    &&& fits_i32(x + i * dx)
    &&& fits_i32(y + i * dy)
    &&& can_paste(w, stack_offset(x, y, dx, dy, i))
}

/// `host` after the first `n` copies of a stack of `w` are pasted into it.
pub open spec fn stacked(
    host: WorldModel,
    w: WorldModel,
    x: i32,
    y: i32,
    dx: i32,
    dy: i32,
    n: nat,
) -> WorldModel
    decreases n,
{
    if n == 0 {
        host
    } else {
        after_paste(stacked(host, w, x, y, dx, dy, (n - 1) as nat), w, stack_offset(x, y, dx, dy, n - 1))
    }
}

impl World {
    /// Pastes a copy of `blueprint` moved by `(x, y)`: its machines and wires
    /// are appended, in order, after those already here.
    pub fn paste(&mut self, blueprint: &World, x: i32, y: i32) -> (r: PastedWorld)
        requires
            can_paste(blueprint@, Offset { x, y }),
        ensures
            final(self)@ == after_paste(old(self)@, blueprint@, Offset { x, y }),
            describes_paste(r, old(self)@, blueprint@, Offset { x, y }),
    {
        let base_index = self.structures.len();
        let offset = Offset { x, y };
        let mut i: usize = 0;
        while i < blueprint.structures.len()
            invariant
                i <= blueprint@.structures.len(),
                can_paste(blueprint@, offset),
                self@.id == old(self)@.id,
                self@.connections == old(self)@.connections,
                self@.structures == old(self)@.structures + blueprint@.structures.take(
                    i as int,
                ).map_values(|s| shift_structure(s, offset)),
            decreases blueprint@.structures.len() - i,
        {
            let s = blueprint.structures[i];
            self.structures.push(
                PositionedStructureData { pos: s.pos.shifted(offset), structure: s.structure },
            );
            assert(blueprint@.structures.take(i + 1).map_values(|s| shift_structure(s, offset))
                =~= blueprint@.structures.take(i as int).map_values(|s| shift_structure(s, offset)).push(
                shift_structure(s, offset),
            ));
            i += 1;
        }
        assert(blueprint@.structures.take(i as int) =~= blueprint@.structures);
        let mut j: usize = 0;
        while j < blueprint.connections.len()
            invariant
                j <= blueprint@.connections.len(),
                can_paste(blueprint@, offset),
                self@.id == old(self)@.id,
                self@.structures == after_paste(old(self)@, blueprint@, offset).structures,
                self@.connections == old(self)@.connections + blueprint@.connections.take(
                    j as int,
                ).map_values(|c| shift_connection(c, offset)),
            decreases blueprint@.connections.len() - j,
        {
            let c = blueprint.connections[j];
            self.connections.push(
                DirectConnection { src: c.src.shifted(offset), dst: c.dst.shifted(offset) },
            );
            assert(blueprint@.connections.take(j + 1).map_values(|c| shift_connection(c, offset))
                =~= blueprint@.connections.take(j as int).map_values(|c| shift_connection(c, offset)).push(
                shift_connection(c, offset),
            ));
            j += 1;
        }
        assert(blueprint@.connections.take(j as int) =~= blueprint@.connections);
        PastedWorld { blueprint_id: blueprint.world_id, host_id: self.world_id, base_index, offset }
    }

    /// Whether a copy of this world moved by `(x, y)` stays on the `i32` grid.
    pub fn fits_at(&self, x: i32, y: i32) -> (r: bool)
        ensures
            r == can_paste(self@, Offset { x, y }),
    {
        let o = Offset { x, y };
        let mut i: usize = 0;
        while i < self.structures.len()
            invariant
                i <= self@.structures.len(),
                o == (Offset { x, y }),
                forall|k: int| 0 <= k < i ==> can_shift(#[trigger] self@.structures[k].pos, o),
            decreases self@.structures.len() - i,
        {
            if !self.structures[i].pos.can_shift(o) {
                assert(!can_shift(self@.structures[i as int].pos, o));
                return false;
            }
            i += 1;
        }
        let mut j: usize = 0;
        while j < self.connections.len()
            invariant
                j <= self@.connections.len(),
                o == (Offset { x, y }),
                forall|k: int| 0 <= k < self@.structures.len() ==> can_shift(#[trigger] self@.structures[k].pos, o),
                forall|k: int| 0 <= k < j ==> wire_can_shift(#[trigger] self@.connections[k], o),
            decreases self@.connections.len() - j,
        {
            let c = self.connections[j];
            if !c.src.can_shift(o) || !c.dst.can_shift(o) {
                assert(!wire_can_shift(self@.connections[j as int], o));
                return false;
            }
            j += 1;
        }
        true
    }

    /// Pastes copy number `step` of a stack of `blueprint` that starts at
    /// `(x, y)` and advances by `(dx, dy)` per copy.
    pub fn stack_iter(
        &mut self,
        blueprint: &World,
        x: i32,
        y: i32,
        dx: i32,
        dy: i32,
        step: usize,
    ) -> (r: PastedWorld)
        requires
            stack_fits(blueprint@, x, y, dx, dy, step as int),
        ensures
            final(self)@ == after_paste(old(self)@, blueprint@, stack_offset(x, y, dx, dy, step as int)),
            describes_paste(r, old(self)@, blueprint@, stack_offset(x, y, dx, dy, step as int)),
    {
        let s = step as i128;
        let bound: i128 = 0x8000_0000_0000_0000_0000_0000;
        assert(-bound <= s * (dx as i128) <= bound) by (nonlinear_arith)
            requires
                bound == 0x8000_0000_0000_0000_0000_0000,
                0 <= s <= u64::MAX,
                i32::MIN <= dx <= i32::MAX,
        ;
        assert(-bound <= s * (dy as i128) <= bound) by (nonlinear_arith)
            requires
                bound == 0x8000_0000_0000_0000_0000_0000,
                0 <= s <= u64::MAX,
                i32::MIN <= dy <= i32::MAX,
        ;
        let px = (x as i128 + s * dx as i128) as i32;
        let py = (y as i128 + s * dy as i128) as i32;
        self.paste(blueprint, px, py)
    }

    /// Pastes `count` copies of `blueprint`, the first at `(x, y)` and each
    /// next one moved by `(dx, dy)`; returns their handles in order.
    pub fn stack(
        &mut self,
        blueprint: &World,
        x: i32,
        y: i32,
        dx: i32,
        dy: i32,
        count: usize,
    ) -> (r: Vec<PastedWorld>)
        requires
            forall|i: int| 0 <= i < count ==> stack_fits(blueprint@, x, y, dx, dy, i),
        ensures
            r@.len() == count,
            final(self)@ == stacked(old(self)@, blueprint@, x, y, dx, dy, count as nat),
            forall|i: int|
                0 <= i < count ==> describes_paste(
                    #[trigger] r@[i],
                    stacked(old(self)@, blueprint@, x, y, dx, dy, i as nat),
                    blueprint@,
                    stack_offset(x, y, dx, dy, i),
                ),
            forall|i: int|
                0 <= i < count ==> #[trigger] r@[i].spec_base_index() == old(self)@.structures.len()
                    + i * blueprint@.structures.len(),
    {
        let mut handles: Vec<PastedWorld> = Vec::new();
        let mut step: usize = 0;
        while step < count
            invariant
                step <= count,
                forall|i: int| 0 <= i < count ==> stack_fits(blueprint@, x, y, dx, dy, i),
                handles@.len() == step,
                self@ == stacked(old(self)@, blueprint@, x, y, dx, dy, step as nat),
                forall|i: int|
                    0 <= i < step ==> describes_paste(
                        #[trigger] handles@[i],
                        stacked(old(self)@, blueprint@, x, y, dx, dy, i as nat),
                        blueprint@,
                        stack_offset(x, y, dx, dy, i),
                    ),
            decreases count - step,
        {
            let pasted = self.stack_iter(blueprint, x, y, dx, dy, step);
            handles.push(pasted);
            step += 1;
        }
        assert forall|i: int| 0 <= i < count implies #[trigger] handles@[i].spec_base_index()
            == old(self)@.structures.len() + i * blueprint@.structures.len() by {
            lemma_stacked_len(old(self)@, blueprint@, x, y, dx, dy, i as nat);
        }
        handles
    }
}

proof fn lemma_stacked_len(host: WorldModel, w: WorldModel, x: i32, y: i32, dx: i32, dy: i32, n: nat)
    ensures
        stacked(host, w, x, y, dx, dy, n).structures.len() == host.structures.len() + n * w.structures.len(),
        stacked(host, w, x, y, dx, dy, n).id == host.id,
    decreases n,
{
    if n > 0 {
        lemma_stacked_len(host, w, x, y, dx, dy, (n - 1) as nat);
        let len = w.structures.len();
        assert(n * len == (n - 1) * len + len) by (nonlinear_arith);
    } else {
        assert(n * w.structures.len() == 0) by (nonlinear_arith)
            requires
                n == 0,
        ;
    }
}

impl Placeable for &World {
    type Id = PastedWorld;

    open spec fn can_place(&self, w: WorldModel, x: i32, y: i32) -> bool {
        can_paste(self@, Offset { x, y })
    }

    open spec fn placed(&self, before: WorldModel, x: i32, y: i32, after: WorldModel, id: PastedWorld) -> bool {
        &&& after == after_paste(before, self@, Offset { x, y })
        &&& describes_paste(id, before, self@, Offset { x, y })
    }

    fn place_in(self, world: &mut World, x: i32, y: i32) -> (id: PastedWorld) {
        world.paste(self, x, y)
    }
}

/// A reusable layout with a footprint and declared input and output ports,
/// which must be ports of its contents.
pub struct Blueprint {
    pub contents: World,
    pub size: Size,
    pub inputs: Vec<PortIn>,
    pub outputs: Vec<PortOut>,
}

/// Whether some declared port belongs to another world than the contents.
pub open spec fn has_foreign_port(contents: WorldModel, inputs: Seq<PortIn>, outputs: Seq<PortOut>) -> bool {
    ||| exists|i: int| 0 <= i < inputs.len() && #[trigger] inputs[i].structure().world_id() != contents.id
    ||| exists|i: int| 0 <= i < outputs.len() && #[trigger] outputs[i].structure().world_id() != contents.id
}

/// Whether some declared port names a machine past the contents' list.
pub open spec fn has_missing_port(contents: WorldModel, inputs: Seq<PortIn>, outputs: Seq<PortOut>) -> bool {
    ||| exists|i: int|
        0 <= i < inputs.len() && #[trigger] inputs[i].structure().spec_index() >= contents.structures.len()
    ||| exists|i: int|
        0 <= i < outputs.len() && #[trigger] outputs[i].structure().spec_index() >= contents.structures.len()
}

/// How placing a blueprint answers before anything is pasted: a foreign
/// declared port is a world mismatch, then a missing machine is reported.
pub open spec fn port_check(contents: WorldModel, inputs: Seq<PortIn>, outputs: Seq<PortOut>) -> Result<
    (),
    LayoutError,
> {
    if has_foreign_port(contents, inputs, outputs) {
        Err(LayoutError::WorldMismatch)
    } else if has_missing_port(contents, inputs, outputs) {
        Err(LayoutError::StructureNotFound)
    } else {
        Ok(())
    }
}

impl Blueprint {
    /// The declared width.
    pub fn w(&self) -> (r: i32)
        ensures
            r == self.size.w,
    {
        self.size.w
    }

    /// The declared height.
    pub fn h(&self) -> (r: i32)
        ensures
            r == self.size.h,
    {
        self.size.h
    }

    /// Checks that every declared port is a port of the contents.
    pub fn check_ports(&self) -> (r: Result<(), LayoutError>)
        ensures
            r == port_check(self.contents@, self.inputs@, self.outputs@),
    {
        let id = self.contents.world_id;
        let count = self.contents.structures.len();
        let mut i: usize = 0;
        while i < self.inputs.len()
            invariant
                i <= self.inputs@.len(),
                id == self.contents@.id,
                forall|k: int| 0 <= k < i ==> #[trigger] self.inputs@[k].structure().world_id() == id,
            decreases self.inputs@.len() - i,
        {
            if self.inputs[i].structure_id.world_id != id {
                assert(self.inputs@[i as int].structure().world_id() != self.contents@.id);
                return Err(LayoutError::WorldMismatch);
            }
            i += 1;
        }
        let mut j: usize = 0;
        while j < self.outputs.len()
            invariant
                j <= self.outputs@.len(),
                id == self.contents@.id,
                forall|k: int| 0 <= k < self.inputs@.len() ==> #[trigger] self.inputs@[k].structure().world_id() == id,
                forall|k: int| 0 <= k < j ==> #[trigger] self.outputs@[k].structure().world_id() == id,
            decreases self.outputs@.len() - j,
        {
            if self.outputs[j].structure_id.world_id != id {
                assert(self.outputs@[j as int].structure().world_id() != self.contents@.id);
                return Err(LayoutError::WorldMismatch);
            }
            j += 1;
        }
        let mut i: usize = 0;
        while i < self.inputs.len()
            invariant
                i <= self.inputs@.len(),
                count == self.contents@.structures.len(),
                !has_foreign_port(self.contents@, self.inputs@, self.outputs@),
                forall|k: int| 0 <= k < i ==> #[trigger] self.inputs@[k].structure().spec_index() < count,
            decreases self.inputs@.len() - i,
        {
            if self.inputs[i].structure_id.index >= count {
                assert(self.inputs@[i as int].structure().spec_index() >= self.contents@.structures.len());
                return Err(LayoutError::StructureNotFound);
            }
            i += 1;
        }
        let mut j: usize = 0;
        while j < self.outputs.len()
            invariant
                j <= self.outputs@.len(),
                count == self.contents@.structures.len(),
                !has_foreign_port(self.contents@, self.inputs@, self.outputs@),
                forall|k: int| 0 <= k < self.inputs@.len() ==> #[trigger] self.inputs@[k].structure().spec_index() < count,
                forall|k: int| 0 <= k < j ==> #[trigger] self.outputs@[k].structure().spec_index() < count,
            decreases self.outputs@.len() - j,
        {
            if self.outputs[j].structure_id.index >= count {
                assert(self.outputs@[j as int].structure().spec_index() >= self.contents@.structures.len());
                return Err(LayoutError::StructureNotFound);
            }
            j += 1;
        }
        Ok(())
    }
}

impl HasSize for Blueprint {
    open spec fn footprint(&self) -> Size {
        self.size
    }

    fn size(&self) -> (r: Size) {
        self.size
    }
}

/// A blueprint placed in a host: how its contents were pasted, and its
/// declared ports carried over into the host.
pub struct PastedBlueprint {
    pub(crate) world: PastedWorld,
    pub(crate) size: Size,
    pub(crate) inputs: Vec<PortIn>,
    pub(crate) outputs: Vec<PortOut>,
}

impl PastedBlueprint {
    pub open(crate) spec fn spec_world(&self) -> PastedWorld {
        self.world
    }

    pub open(crate) spec fn spec_size(&self) -> Size {
        self.size
    }

    pub open(crate) spec fn spec_inputs(&self) -> Seq<PortIn> {
        self.inputs@
    }

    pub open(crate) spec fn spec_outputs(&self) -> Seq<PortOut> {
        self.outputs@
    }

    /// How the blueprint's contents were pasted.
    #[verifier::when_used_as_spec(spec_world)]
    pub fn world(&self) -> (r: PastedWorld)
        ensures
            r == self.spec_world(),
    {
        self.world
    }

    /// The declared width.
    pub fn w(&self) -> (r: i32)
        ensures
            r == self.spec_size().w,
    {
        self.size.w
    }

    /// The declared height.
    pub fn h(&self) -> (r: i32)
        ensures
            r == self.spec_size().h,
    {
        self.size.h
    }

    /// Declared input number `index`, in the host.
    pub fn input(&self, index: usize) -> (r: Result<PortIn, LayoutError>)
        ensures
            index < self.spec_inputs().len() ==> r == Ok::<PortIn, LayoutError>(self.spec_inputs()[index as int]),
            index >= self.spec_inputs().len() ==> r == Err::<PortIn, LayoutError>(LayoutError::PortOutOfRange),
    {
        if index < self.inputs.len() {
            Ok(self.inputs[index])
        } else {
            Err(LayoutError::PortOutOfRange)
        }
    }

    /// Declared output number `index`, in the host.
    pub fn output(&self, index: usize) -> (r: Result<PortOut, LayoutError>)
        ensures
            index < self.spec_outputs().len() ==> r == Ok::<PortOut, LayoutError>(self.spec_outputs()[index as int]),
            index >= self.spec_outputs().len() ==> r == Err::<PortOut, LayoutError>(LayoutError::PortOutOfRange),
    {
        if index < self.outputs.len() {
            Ok(self.outputs[index])
        } else {
            Err(LayoutError::PortOutOfRange)
        }
    }
}

impl HasSize for PastedBlueprint {
    open spec fn footprint(&self) -> Size {
        self.spec_size()
    }

    fn size(&self) -> (r: Size) {
        self.size
    }
}

impl Placeable for &Blueprint {
    type Id = Result<PastedBlueprint, LayoutError>;

    open spec fn can_place(&self, w: WorldModel, x: i32, y: i32) -> bool {
        port_check(self.contents@, self.inputs@, self.outputs@) is Ok ==> can_paste(
            self.contents@,
            Offset { x, y },
        )
    }

    open spec fn placed(
        &self,
        before: WorldModel,
        x: i32,
        y: i32,
        after: WorldModel,
        id: Result<PastedBlueprint, LayoutError>,
    ) -> bool {
        match id {
            Err(e) => {
                &&& port_check(self.contents@, self.inputs@, self.outputs@) == Err::<(), LayoutError>(e)
                &&& after == before
            },
            Ok(pasted) => {
                &&& port_check(self.contents@, self.inputs@, self.outputs@) is Ok
                &&& after == after_paste(before, self.contents@, Offset { x, y })
                &&& describes_paste(pasted.world(), before, self.contents@, Offset { x, y })
                &&& pasted.spec_size() == self.size
                &&& pasted.spec_inputs().len() == self.inputs@.len()
                &&& pasted.spec_outputs().len() == self.outputs@.len()
                &&& forall|i: int|
                    0 <= i < self.inputs@.len() ==> #[trigger] self.inputs@[i].relocated(
                        pasted.world(),
                        pasted.spec_inputs()[i],
                    )
                &&& forall|i: int|
                    0 <= i < self.outputs@.len() ==> #[trigger] self.outputs@[i].relocated(
                        pasted.world(),
                        pasted.spec_outputs()[i],
                    )
            },
        }
    }

    fn place_in(self, world: &mut World, x: i32, y: i32) -> (id: Result<PastedBlueprint, LayoutError>) {
        match self.check_ports() {
            Err(e) => return Err(e),
            Ok(()) => {},
        }
        let pasted = world.paste(&self.contents, x, y);
        let total = world.structures.len();
        let mut inputs: Vec<PortIn> = Vec::new();
        let mut i: usize = 0;
        while i < self.inputs.len()
            invariant
                i <= self.inputs@.len(),
                port_check(self.contents@, self.inputs@, self.outputs@) is Ok,
                pasted.spec_base_index() + self.contents@.structures.len() == total,
                inputs@.len() == i,
                forall|k: int| 0 <= k < i ==> #[trigger] self.inputs@[k].relocated(pasted, inputs@[k]),
            decreases self.inputs@.len() - i,
        {
            let port = self.inputs[i];
            assert(port.structure().spec_index() < self.contents@.structures.len());
            inputs.push(port.map_inside(&pasted));
            i += 1;
        }
        let mut outputs: Vec<PortOut> = Vec::new();
        let mut j: usize = 0;
        while j < self.outputs.len()
            invariant
                j <= self.outputs@.len(),
                port_check(self.contents@, self.inputs@, self.outputs@) is Ok,
                pasted.spec_base_index() + self.contents@.structures.len() == total,
                outputs@.len() == j,
                forall|k: int| 0 <= k < j ==> #[trigger] self.outputs@[k].relocated(pasted, outputs@[k]),
            decreases self.outputs@.len() - j,
        {
            let port = self.outputs[j];
            assert(port.structure().spec_index() < self.contents@.structures.len());
            outputs.push(port.map_inside(&pasted));
            j += 1;
        }
        Ok(PastedBlueprint { world: pasted, size: self.size, inputs, outputs })
    }
}

/// Pasting copies every machine of `w` into `host` after the host's own,
/// in order, each moved by `o` with its kind and items unchanged; machines
/// keep their offsets relative to one another.
pub proof fn lemma_paste_copies(host: WorldModel, w: WorldModel, o: Offset)
    requires
        can_paste(w, o),
    ensures
        after_paste(host, w, o).id == host.id,
        after_paste(host, w, o).structures.len() == host.structures.len() + w.structures.len(),
        forall|i: int|
            0 <= i < host.structures.len() ==> #[trigger] after_paste(host, w, o).structures[i]
                == host.structures[i],
        forall|i: int|
            0 <= i < w.structures.len() ==> {
                let copy = #[trigger] after_paste(host, w, o).structures[host.structures.len() + i];
                &&& copy.structure == w.structures[i].structure
                &&& copy.pos.x == w.structures[i].pos.x + o.x
                &&& copy.pos.y == w.structures[i].pos.y + o.y
            },
        forall|i: int, j: int|
            0 <= i < w.structures.len() && 0 <= j < w.structures.len() ==> {
                let a = #[trigger] after_paste(host, w, o).structures[host.structures.len() + i];
                let b = #[trigger] after_paste(host, w, o).structures[host.structures.len() + j];
                &&& a.pos.x - b.pos.x == w.structures[i].pos.x - w.structures[j].pos.x
                &&& a.pos.y - b.pos.y == w.structures[i].pos.y - w.structures[j].pos.y
            },
{
    let after = after_paste(host, w, o);
    assert forall|i: int| 0 <= i < w.structures.len() implies {
        let copy = #[trigger] after.structures[host.structures.len() + i];
        &&& copy.structure == w.structures[i].structure
        &&& copy.pos.x == w.structures[i].pos.x + o.x
        &&& copy.pos.y == w.structures[i].pos.y + o.y
    } by {
        assert(can_shift(w.structures[i].pos, o));
    }
}

/// Placing and pasting only append: every machine a world held before keeps
/// its index and its contents, so its handles stay valid.
pub proof fn lemma_handles_stay_valid(
    w: WorldModel,
    item: PositionedStructureData,
    other: WorldModel,
    o: Offset,
    s: Structure,
)
    requires
        holds(w, s),
    ensures
        holds(after_place(w, item), s),
        after_place(w, item).structures[s.spec_index() as int] == w.structures[s.spec_index() as int],
        holds(after_paste(w, other, o), s),
        after_paste(w, other, o).structures[s.spec_index() as int] == w.structures[s.spec_index() as int],
{
}

/// Carrying a handle over through a paste commutes with moving: the host
/// cell of a port on the carried-over machine is the cell it had in the
/// pasted world, moved by the paste offset.
pub proof fn lemma_relocation_commutes(
    host: WorldModel,
    w: WorldModel,
    o: Offset,
    pasted: PastedWorld,
    s: Structure,
    moved: Structure,
    port_offset: Offset,
)
    requires
        can_paste(w, o),
        describes_paste(pasted, host, w, o),
        holds(w, s),
        structure_relocated(s, pasted, moved),
    ensures
        holds(after_paste(host, w, o), moved),
        after_paste(host, w, o).structures[moved.spec_index() as int].structure
            == w.structures[s.spec_index() as int].structure,
        after_paste(host, w, o).structures[moved.spec_index() as int].pos.x + port_offset.x
            == (w.structures[s.spec_index() as int].pos.x + port_offset.x) + o.x,
        after_paste(host, w, o).structures[moved.spec_index() as int].pos.y + port_offset.y
            == (w.structures[s.spec_index() as int].pos.y + port_offset.y) + o.y,
        can_shift(w.structures[s.spec_index() as int].pos, port_offset) && can_shift(
            port_cell(w, s, port_offset),
            o,
        ) ==> port_cell(after_paste(host, w, o), moved, port_offset) == shift(
            port_cell(w, s, port_offset),
            o,
        ),
{
    lemma_paste_copies(host, w, o);
    let i = s.spec_index() as int;
    assert(after_paste(host, w, o).structures[host.structures.len() + i] == after_paste(
        host,
        w,
        o,
    ).structures[moved.spec_index() as int]);
}

} // verus!
