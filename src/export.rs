//! Export of a world in the external save format.
use vstd::prelude::*;

use crate::geometry::CELL_SCALE;
use crate::structure::machine_text;
use crate::text::{int_text, nat_text, push_int, push_usize};
use crate::world::{DirectConnection, PositionedStructureData, World, WorldModel};

verus! {

/// The opening of every export, up to the machine records.
pub const INTRO_SECTION: &'static str = "[Intro]\n\
    -read=\"1.000000\"\n\
    [Machines]\n";

/// The fixed section between the machine count and the wire records.
pub const MACHINE_TYPE_SECTION: &'static str = "[Machine-Type]\n\
    0-cur-input=\"0.000000\"\n\
    1-cur-input=\"0.000000\"\n\
    2-cur-input=\"0.000000\"\n\
    3-cur-input=\"0.000000\"\n\
    4-cur-input=\"0.000000\"\n\
    5-cur-input=\"0.000000\"\n\
    6-cur-input=\"0.000000\"\n\
    7-cur-input=\"0.000000\"\n\
    8-cur-input=\"0.000000\"\n\
    9-cur-input=\"0.000000\"\n\
    10-cur-input=\"0.000000\"\n\
    11-cur-input=\"0.000000\"\n\
    12-cur-input=\"0.000000\"\n\
    13-cur-input=\"0.000000\"\n\
    [Connections]\n";

/// The fixed sections after the wire count that close every export.
pub const CLOSING_SECTIONS: &'static str = "[Research]\n\
    0-name=\"Start Factory\"\n\
    0-researched=\"1.000000\"\n\
    0-cost_input=\"4.000000\"\n\
    1-name=\"Pump Speed\"\n\
    1-researched=\"1.000000\"\n\
    1-cost_input=\"8.000000\"\n\
    2-name=\"Research Speed\"\n\
    2-researched=\"1.000000\"\n\
    2-cost_input=\"16.000000\"\n\
    3-name=\"Refine Resource\"\n\
    3-researched=\"1.000000\"\n\
    3-cost_input=\"4.000000\"\n\
    4-name=\"Automation\"\n\
    4-researched=\"1.000000\"\n\
    4-cost_input=\"2.000000\"\n\
    5-name=\"Splitter/Merger\"\n\
    5-researched=\"1.000000\"\n\
    5-cost_input=\"6.000000\"\n\
    6-name=\"Destroy Stuff\"\n\
    6-researched=\"1.000000\"\n\
    6-cost_input=\"16.000000\"\n\
    7-name=\"Portalisation\"\n\
    7-researched=\"1.000000\"\n\
    7-cost_input=\"32.000000\"\n\
    8-name=\"Bigger Storage\"\n\
    8-researched=\"1.000000\"\n\
    8-cost_input=\"16.000000\"\n\
    9-name=\"Storage Use\"\n\
    9-researched=\"1.000000\"\n\
    9-cost_input=\"10.000000\"\n\
    10-name=\"Combine Stuff\"\n\
    10-researched=\"1.000000\"\n\
    10-cost_input=\"80.000000\"\n\
    11-name=\"Crystal-1\"\n\
    11-researched=\"1.000000\"\n\
    11-cost_input=\"24.000000\"\n\
    12-name=\"Better Gems\"\n\
    12-researched=\"1.000000\"\n\
    12-cost_input=\"36.000000\"\n\
    13-name=\"Destruction+\"\n\
    13-researched=\"1.000000\"\n\
    13-cost_input=\"48.000000\"\n\
    14-name=\"RefineSpeed+\"\n\
    14-researched=\"1.000000\"\n\
    14-cost_input=\"130.000000\"\n\
    15-name=\"BetterPlate\"\n\
    15-researched=\"1.000000\"\n\
    15-cost_input=\"24.000000\"\n\
    16-name=\"Sell Stuff\"\n\
    16-researched=\"1.000000\"\n\
    16-cost_input=\"90.000000\"\n\
    17-name=\"Lab Speed+\"\n\
    17-researched=\"1.000000\"\n\
    17-cost_input=\"30.000000\"\n\
    18-name=\"Bigger Sp/Me\"\n\
    18-researched=\"1.000000\"\n\
    18-cost_input=\"60.000000\"\n\
    19-name=\"Better Shard\"\n\
    19-researched=\"1.000000\"\n\
    19-cost_input=\"90.000000\"\n\
    20-name=\"Better Metal\"\n\
    20-researched=\"1.000000\"\n\
    20-cost_input=\"90.000000\"\n\
    21-name=\"Easier Gems\"\n\
    21-researched=\"1.000000\"\n\
    21-cost_input=\"50.000000\"\n\
    22-name=\"Best Metal\"\n\
    22-researched=\"1.000000\"\n\
    22-cost_input=\"80.000000\"\n\
    23-name=\"Infuse Metal\"\n\
    23-researched=\"1.000000\"\n\
    23-cost_input=\"120.000000\"\n\
    24-name=\"The Chassis\"\n\
    24-researched=\"1.000000\"\n\
    24-cost_input=\"100.000000\"\n\
    25-name=\"ORB-ORB-ORB\"\n\
    25-researched=\"1.000000\"\n\
    25-cost_input=\"90.000000\"\n\
    26-name=\"ORB POWER\"\n\
    26-researched=\"1.000000\"\n\
    26-cost_input=\"80.000000\"\n\
    27-name=\"Pure Energy\"\n\
    27-researched=\"1.000000\"\n\
    27-cost_input=\"120.000000\"\n\
    28-name=\"Dark Arts\"\n\
    28-researched=\"1.000000\"\n\
    28-cost_input=\"300.000000\"\n\
    29-name=\"Curse Recipe\"\n\
    29-researched=\"1.000000\"\n\
    29-cost_input=\"50.000000\"\n\
    30-name=\"Air Recipe\"\n\
    30-researched=\"1.000000\"\n\
    30-cost_input=\"120.000000\"\n\
    31-name=\"Fleshy Stuff\"\n\
    31-researched=\"1.000000\"\n\
    31-cost_input=\"90.000000\"\n\
    32-name=\"Flesh Infusion\"\n\
    32-researched=\"1.000000\"\n\
    32-cost_input=\"80.000000\"\n\
    33-name=\"Easier Flesh\"\n\
    33-researched=\"1.000000\"\n\
    33-cost_input=\"30.000000\"\n\
    34-name=\"Darker Arts\"\n\
    34-researched=\"1.000000\"\n\
    34-cost_input=\"40.000000\"\n\
    35-name=\"Thought Cores\"\n\
    35-researched=\"1.000000\"\n\
    35-cost_input=\"50.000000\"\n\
    36-name=\"Soul Magic\"\n\
    36-researched=\"1.000000\"\n\
    36-cost_input=\"70.000000\"\n\
    37-name=\"The Ritual\"\n\
    37-researched=\"1.000000\"\n\
    37-cost_input=\"800.000000\"\n\
    38-name=\"Immortality\"\n\
    38-researched=\"1.000000\"\n\
    38-cost_input=\"1.000000\"\n\
    39-name=\"INSANITY\"\n\
    39-researched=\"0.000000\"\n\
    39-cost_input=\"0.000000\"\n\
    [Special Unlocks]\n\
    0-unlocked=\"1.000000\"\n\
    1-unlocked=\"1.000000\"\n\
    2-unlocked=\"1.000000\"\n\
    [Hand]\n\
    -type=\"-1.000000\"\n\
    -value=\"-1.000000\"\n\
    [Final]\n\
    0-value=\"0.000000\"\n\
    1-value=\"0.000000\"\n\
    2-value=\"0.000000\"\n\
    [Game]\n\
    -finished=\"1.000000\"\n";

/// The record line of wire number `id`, in external coordinates.
pub open spec fn connection_line(c: DirectConnection, id: nat) -> Seq<char> {
    nat_text(id) + "-struct=\"{+point_a+:{+x+:"@ + int_text(c.src.x * CELL_SCALE) + ".0,+y+:"@
        + int_text(c.src.y * CELL_SCALE) + ".0,+type+:1},+point_b+:{+x+:"@ + int_text(
        c.dst.x * CELL_SCALE,
    ) + ".0,+y+:"@ + int_text(c.dst.y * CELL_SCALE) + ".0,+type+:0}}\"\n"@
}

/// The records of the machines, numbered in placement order.
pub open spec fn machines_text(s: Seq<PositionedStructureData>) -> Seq<char>
    decreases s.len(),
{
    if s.len() == 0 {
        Seq::empty()
    } else {
        machines_text(s.drop_last()) + machine_text(
            s.last().structure,
            (s.len() - 1) as nat,
            s.last().pos.x as int,
            s.last().pos.y as int,
        )
    }
}

/// The records of the wires, numbered in the order they were made.
pub open spec fn connections_text(c: Seq<DirectConnection>) -> Seq<char>
    decreases c.len(),
{
    if c.len() == 0 {
        Seq::empty()
    } else {
        connections_text(c.drop_last()) + connection_line(c.last(), (c.len() - 1) as nat)
    }
}

/// A count line `total="<n>.000000"`.
pub open spec fn total_line(n: nat) -> Seq<char> {
    "total=\""@ + nat_text(n) + ".000000\"\n"@
}

/// The whole export of a world.
pub open spec fn export_text(w: WorldModel) -> Seq<char> {
    INTRO_SECTION@ + machines_text(w.structures) + total_line(w.structures.len())
        + MACHINE_TYPE_SECTION@ + connections_text(w.connections) + total_line(w.connections.len())
        + CLOSING_SECTIONS@
}

fn export_total(out: &mut String, n: usize)
    ensures
        final(out)@ == old(out)@ + total_line(n as nat),
{
    out.append("total=\"");
    push_usize(out, n);
    out.append(".000000\"\n");
    assert(out@ =~= old(out)@ + total_line(n as nat));
}

impl DirectConnection {
    /// Appends the record line of this wire, numbered `id`.
    pub fn export(&self, out: &mut String, id: usize)
        ensures
            final(out)@ == old(out)@ + connection_line(*self, id as nat),
    {
        let (x1, y1) = self.src.world_coords();
        let (x2, y2) = self.dst.world_coords();
        push_usize(out, id);
        out.append("-struct=\"{+point_a+:{+x+:");
        push_int(out, x1);
        out.append(".0,+y+:");
        push_int(out, y1);
        out.append(".0,+type+:1},+point_b+:{+x+:");
        push_int(out, x2);
        out.append(".0,+y+:");
        push_int(out, y2);
        out.append(".0,+type+:0}}\"\n");
        assert(out@ =~= old(out)@ + connection_line(*self, id as nat));
    }
}

impl World {
    /// Appends the export of this world: the fixed opening, one block per
    /// machine in placement order, the machine count, a fixed section, one
    /// record per wire, the wire count, and the fixed closing sections.
    pub fn export(&self, out: &mut String)
        ensures
            final(out)@ == old(out)@ + export_text(self@),
    {
        out.append(INTRO_SECTION);
        let ghost intro = out@;
        let mut i: usize = 0;
        while i < self.structures.len()
            invariant
                i <= self@.structures.len(),
                out@ == intro + machines_text(self@.structures.take(i as int)),
            decreases self@.structures.len() - i,
        {
            let placed = self.structures[i];
            placed.structure.export(out, i, placed.pos.x, placed.pos.y);
            assert(self@.structures.take(i + 1).drop_last() =~= self@.structures.take(i as int));
            i += 1;
        }
        assert(self@.structures.take(i as int) =~= self@.structures);
        export_total(out, self.structures.len());
        out.append(MACHINE_TYPE_SECTION);
        let ghost middle = out@;
        let mut j: usize = 0;
        while j < self.connections.len()
            invariant
                j <= self@.connections.len(),
                out@ == middle + connections_text(self@.connections.take(j as int)),
            decreases self@.connections.len() - j,
        {
            self.connections[j].export(out, j);
            assert(self@.connections.take(j + 1).drop_last() =~= self@.connections.take(j as int));
            j += 1;
        }
        assert(self@.connections.take(j as int) =~= self@.connections);
        export_total(out, self.connections.len());
        out.append(CLOSING_SECTIONS);
        assert(out@ =~= old(out)@ + export_text(self@));
    }
}

} // verus!
