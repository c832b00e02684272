use immortality_factory::blueprint::{Blueprint, Entity};
use immortality_factory::catalogue::StructureKind;
use immortality_factory::geometry::{HasSize, Offset, Position, Size};
use immortality_factory::item::Item;
use immortality_factory::structure::StructureData;
use immortality_factory::world::{LayoutError, Structure, World, WorldRegistry};

#[test]
fn sequential_placements_get_consecutive_indices() {
    let mut reg = WorldRegistry::new();
    let mut w = World::new(&mut reg);
    assert_eq!(w.structure_count(), 0);
    let kinds = [
        StructureKind::AirPump,
        StructureKind::Refinery,
        StructureKind::Merger,
        StructureKind::Laboratory,
        StructureKind::BigSplitter,
    ];
    for (i, kind) in kinds.iter().enumerate() {
        let s = w.place(*kind, i as i32 * 7, 1);
        assert_eq!(s.index(), i);
        assert_eq!(s.kind(), *kind);
        assert_eq!(s.world_id(), w.id());
        assert_eq!(w.structure_count(), i + 1);
    }
    let door = w.place(StructureKind::AbysalDoor, -3, 9);
    let placed = w.get_structure(door).unwrap();
    assert_eq!(placed.pos, Position { x: -3, y: 9 });
    assert_eq!(placed.structure, StructureData::AbysalDoor { input: Item::Empty });
}

#[test]
fn place_structure_keeps_payload() {
    let mut reg = WorldRegistry::new();
    let mut w = World::new(&mut reg);
    let data = StructureData::Splitter { input: Item::GoldCoin, outputs: [Item::GoldCoin, Item::Empty] };
    let s = w.place_structure(data, 2, 3);
    assert_eq!(s.index(), 0);
    assert_eq!(s.size(), Size { w: 1, h: 3 });
    let got = w.get_structure(s).unwrap();
    assert_eq!(got.structure, data);
    assert_eq!(got.pos, Position { x: 2, y: 3 });
}

#[test]
fn registry_issues_distinct_ids() {
    let mut reg = WorldRegistry::new();
    assert!(reg.can_issue());
    let a = World::new(&mut reg);
    let b = World::new(&mut reg);
    let c = World::new(&mut reg);
    assert_ne!(a.id(), b.id());
    assert_ne!(b.id(), c.id());
    assert_ne!(a.id(), c.id());
}

#[test]
fn port_lookup_errors() {
    let mut reg = WorldRegistry::new();
    let mut w = World::new(&mut reg);
    let pump = w.place(StructureKind::AirPump, 0, 0);
    assert_eq!(pump.input(0), Err(LayoutError::PortOutOfRange));
    assert_eq!(pump.output(1), Err(LayoutError::PortOutOfRange));
    let out = pump.output(0).unwrap();
    assert_eq!(out.offset(), Offset { x: 1, y: 1 });
    assert_eq!(out.structure(), pump);
    let single = w.place(StructureKind::SingleStorage, 5, 5);
    assert_eq!(single.output(0), Err(LayoutError::NoSuchPort));
    let ritual = w.place(StructureKind::RitualInfuser, 9, 9);
    assert_eq!(ritual.output(0), Err(LayoutError::NoSuchPort));
    assert_eq!(ritual.input(2).unwrap().offset(), Offset { x: 4, y: 1 });
}

#[test]
fn connect_records_absolute_cells() {
    let mut reg = WorldRegistry::new();
    let mut w = World::new(&mut reg);
    let pump = w.place(StructureKind::AirPump, 0, 0);
    let lab = w.place(StructureKind::Laboratory, 3, 0);
    assert_eq!(w.connect(pump.output(0).unwrap(), lab.input(0).unwrap()), Ok(()));
    let mut text = String::new();
    w.export(&mut text);
    assert!(text.contains(
        "0-struct=\"{+point_a+:{+x+:22.0,+y+:22.0,+type+:1},+point_b+:{+x+:66.0,+y+:22.0,+type+:0}}\"\n"
    ));
}

#[test]
fn connect_refuses_ports_of_another_world() {
    let mut reg = WorldRegistry::new();
    let mut a = World::new(&mut reg);
    let mut b = World::new(&mut reg);
    let pump_a = a.place(StructureKind::AirPump, 0, 0);
    let lab_a = a.place(StructureKind::Laboratory, 3, 0);
    let pump_b = b.place(StructureKind::AirPump, 0, 0);
    let lab_b = b.place(StructureKind::Laboratory, 3, 0);
    assert_eq!(
        a.connect(pump_b.output(0).unwrap(), lab_a.input(0).unwrap()),
        Err(LayoutError::WorldMismatch)
    );
    assert_eq!(
        a.connect(pump_a.output(0).unwrap(), lab_b.input(0).unwrap()),
        Err(LayoutError::WorldMismatch)
    );
    assert_eq!(a.get_structure(pump_b), Err(LayoutError::WorldMismatch));
    let mut text = String::new();
    a.export(&mut text);
    assert!(text.contains("[Connections]\ntotal=\"0.000000\"\n"));
}

#[test]
fn stale_handle_is_not_found() {
    let mut reg = WorldRegistry::new();
    let mut bp = World::new(&mut reg);
    let mut host = World::new(&mut reg);
    let first = bp.place(StructureKind::AirPump, 0, 0);
    let pasted = host.paste(&bp, 0, 0);
    let later = bp.place(StructureKind::Laboratory, 3, 0);
    let moved = pasted.get(later).unwrap();
    assert_eq!(moved.index(), 1);
    assert_eq!(host.get_structure(moved), Err(LayoutError::StructureNotFound));
    let pump = pasted.get(first).unwrap();
    assert_eq!(host.get_structure(pump).unwrap().structure.kind(), StructureKind::AirPump);
    assert_eq!(
        host.connect(pump.output(0).unwrap(), moved.input(0).unwrap()),
        Err(LayoutError::StructureNotFound)
    );
}

fn two_machine_world(reg: &mut WorldRegistry) -> (World, Vec<Structure>) {
    let mut w = World::new(reg);
    let pump = w.place(StructureData::AirPump { output: Item::RichAir }, 0, 0);
    let vault = w.place(StructureKind::StorageVault, 2, 1);
    w.connect(pump.output(0).unwrap(), vault.input(0).unwrap()).unwrap();
    (w, vec![pump, vault])
}

#[test]
fn paste_twice_moves_copies() {
    let mut reg = WorldRegistry::new();
    let (bp, handles) = two_machine_world(&mut reg);
    let mut host = World::new(&mut reg);
    let first = host.paste(&bp, 0, 0);
    let second = host.place(&bp, 0, 4);
    assert_eq!(host.structure_count(), 4);
    assert_eq!(first.base_index(), 0);
    assert_eq!(second.base_index(), 2);
    assert_eq!(second.offset(), Offset { x: 0, y: 4 });
    assert_eq!(second.blueprint_id(), bp.id());
    assert_eq!(second.host_id(), host.id());
    for h in handles.iter() {
        let a = *host.get_structure(first.get(*h).unwrap()).unwrap();
        let b = *host.get_structure(second.get(*h).unwrap()).unwrap();
        assert_eq!(a.structure, b.structure);
        assert_eq!(b.pos, Position { x: a.pos.x, y: a.pos.y + 4 });
    }
    assert_eq!(second.get(handles[1]).unwrap().index(), 3);
    let mut text = String::new();
    host.export(&mut text);
    assert!(text.contains("total=\"4.000000\"\n[Machine-Type]"));
    assert!(text.contains(
        "1-struct=\"{+point_a+:{+x+:22.0,+y+:110.0,+type+:1},+point_b+:{+x+:44.0,+y+:132.0,+type+:0}}\"\n"
    ));
    assert!(text.contains("\ntotal=\"2.000000\"\n[Research]"));
    assert!(text.contains("3-y=\"110.000000\"\n3-x=\"44.000000\"\n3-object=\"0.000000\"\n"));
}

#[test]
fn relocated_ports_resolve_to_moved_cells() {
    let mut reg = WorldRegistry::new();
    let (bp, handles) = two_machine_world(&mut reg);
    let mut host = World::new(&mut reg);
    host.place(StructureKind::Laboratory, 0, 0);
    let pasted = host.paste(&bp, 10, -3);
    let port = handles[1].input(0).unwrap();
    let moved = pasted.get(port).unwrap();
    assert_eq!(moved.offset(), port.offset());
    let source_pos = bp.get_structure(port.structure()).unwrap().pos;
    let host_pos = host.get_structure(moved.structure()).unwrap().pos;
    assert_eq!(host_pos.x + moved.offset().x, source_pos.x + port.offset().x + 10);
    assert_eq!(host_pos.y + moved.offset().y, source_pos.y + port.offset().y - 3);
    let out = pasted.get(handles[0].output(0).unwrap()).unwrap();
    assert_eq!(out.structure().index(), 1);
    assert_eq!(out.structure().world_id(), host.id());
    assert_eq!(out.get_world_id(), host.id());
}

#[test]
fn relocation_refuses_handles_of_another_world() {
    let mut reg = WorldRegistry::new();
    let (bp, _) = two_machine_world(&mut reg);
    let mut other = World::new(&mut reg);
    let stray = other.place(StructureKind::Merger, 0, 0);
    let mut host = World::new(&mut reg);
    let pasted = host.paste(&bp, 0, 0);
    assert_eq!(pasted.get(stray), Err(LayoutError::WorldMismatch));
    assert_eq!(pasted.get(stray.input(1).unwrap()), Err(LayoutError::WorldMismatch));
    assert_eq!(stray.output(0).unwrap().inside(&pasted), Err(LayoutError::WorldMismatch));
}

#[test]
fn stack_advances_each_copy() {
    let mut reg = WorldRegistry::new();
    let (bp, _) = two_machine_world(&mut reg);
    let mut host = World::new(&mut reg);
    let copies = host.stack(&bp, 0, 0, 0, 2, 3);
    assert_eq!(copies.len(), 3);
    assert_eq!(copies[0].offset(), Offset { x: 0, y: 0 });
    assert_eq!(copies[1].offset(), Offset { x: 0, y: 2 });
    assert_eq!(copies[2].offset(), Offset { x: 0, y: 4 });
    assert_eq!(copies[2].base_index(), 4);
    assert_eq!(host.structure_count(), 6);
    let single = host.stack_iter(&bp, 1, 1, 5, -1, 4);
    assert_eq!(single.offset(), Offset { x: 21, y: -3 });
    assert_eq!(single.base_index(), 6);
    assert!(host.stack(&bp, 0, 0, 1, 1, 0).is_empty());
}

#[test]
fn blueprint_placement_relocates_declared_ports() {
    let mut reg = WorldRegistry::new();
    let (contents, handles) = two_machine_world(&mut reg);
    let bp = Blueprint {
        contents,
        size: Size { w: 7, h: 3 },
        inputs: vec![handles[1].input(0).unwrap()],
        outputs: vec![handles[1].output(0).unwrap()],
    };
    assert_eq!(bp.w(), 7);
    assert_eq!(bp.h(), 3);
    assert_eq!(bp.check_ports(), Ok(()));
    let mut host = World::new(&mut reg);
    host.place(StructureKind::AirPump, 0, 0);
    let pasted = host.place(&bp, 0, 5).unwrap();
    assert_eq!(pasted.w(), 7);
    assert_eq!(pasted.h(), 3);
    assert_eq!(pasted.world().base_index(), 1);
    let input = pasted.input(0).unwrap();
    assert_eq!(input.structure().index(), 2);
    assert_eq!(input.structure().world_id(), host.id());
    assert_eq!(pasted.output(0).unwrap().offset(), Offset { x: 4, y: 1 });
    assert_eq!(pasted.input(1), Err(LayoutError::PortOutOfRange));
    assert_eq!(pasted.output(3), Err(LayoutError::PortOutOfRange));
    assert_eq!(host.structure_count(), 3);
    let vault = host.get_structure(input.structure()).unwrap();
    assert_eq!(vault.pos, Position { x: 2, y: 6 });
}

#[test]
fn blueprint_with_foreign_port_is_refused() {
    let mut reg = WorldRegistry::new();
    let (contents, handles) = two_machine_world(&mut reg);
    let mut other = World::new(&mut reg);
    let stray = other.place(StructureKind::Laboratory, 0, 0);
    let bp = Blueprint {
        contents,
        size: Size { w: 7, h: 3 },
        inputs: vec![handles[1].input(0).unwrap(), stray.input(0).unwrap()],
        outputs: vec![],
    };
    assert_eq!(bp.check_ports(), Err(LayoutError::WorldMismatch));
    let mut host = World::new(&mut reg);
    assert!(matches!(host.place(&bp, 0, 0), Err(LayoutError::WorldMismatch)));
    assert_eq!(host.structure_count(), 0);
}

#[test]
fn blueprint_with_missing_machine_is_refused() {
    let mut reg = WorldRegistry::new();
    let (mut contents, _) = two_machine_world(&mut reg);
    let mut host = World::new(&mut reg);
    let pasted = host.paste(&contents, 0, 0);
    let extra = contents.place(StructureKind::AbysalDoor, 9, 9);
    let moved_in = pasted.get(extra).unwrap().input(0).unwrap();
    let bp = Blueprint { contents: host, size: Size { w: 1, h: 1 }, inputs: vec![moved_in], outputs: vec![] };
    assert_eq!(bp.check_ports(), Err(LayoutError::StructureNotFound));
    let mut target = World::new(&mut reg);
    assert!(matches!(target.place(&bp, 0, 0), Err(LayoutError::StructureNotFound)));
    assert_eq!(target.structure_count(), 0);
}
