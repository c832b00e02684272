use immortality_factory::geometry::{HasSize, Offset, Position, Size};
use immortality_factory::item::Item;
use immortality_factory::catalogue::StructureKind;
use immortality_factory::structure::StructureData;

#[test]
fn item_codes_follow_catalogue_order() {
    assert_eq!(Item::Empty.code(), -1);
    assert_eq!(Item::RichAir.code(), 0);
    assert_eq!(Item::CopperCoin.code(), 6);
    assert_eq!(Item::Phylactery.code(), 25);
    let items = Item::items();
    assert_eq!(items.len(), 26);
    for (i, item) in items.iter().enumerate() {
        assert_eq!(item.code() as usize, i);
    }
}

#[test]
fn item_code_round_trip() {
    for item in Item::items() {
        assert_eq!(Item::try_from(item.code()), Ok(item));
    }
    assert_eq!(Item::try_from(-1i8), Ok(Item::Empty));
    assert_eq!(Item::try_from(3i8), Ok(Item::ManaDust));
}

#[test]
fn item_codes_out_of_range_fail() {
    assert_eq!(Item::try_from(-2i8), Err(()));
    assert_eq!(Item::try_from(-128i8), Err(()));
    assert_eq!(Item::try_from(26i8), Err(()));
    assert_eq!(Item::try_from(127i8), Err(()));
}

#[test]
fn offsets_and_sizes_know_their_sentinel() {
    assert!(!Offset::null().non_null());
    assert!(Offset { x: -1, y: 0 }.non_null());
    assert!(Offset { x: 0, y: 0 }.non_null());
    assert!(!Size { w: -1, h: -1 }.non_null());
    assert!(Size { w: 2, h: 2 }.non_null());
}

#[test]
fn positions_scale_to_external_units() {
    let p = Position { x: 3, y: -2 };
    assert_eq!(p.world_x(), 66);
    assert_eq!(p.world_y(), -44);
    assert_eq!(p.world_coords(), (66, -44));
    let far = Position { x: i32::MAX, y: i32::MIN };
    assert_eq!(far.world_coords(), (i32::MAX as i64 * 22, i32::MIN as i64 * 22));
    assert_eq!(p.shifted(Offset { x: 1, y: 5 }), Position { x: 4, y: 3 });
}

#[test]
fn catalogue_lookups() {
    let c = StructureKind::Disharmonizer.connectors();
    assert_eq!(c.inputs, vec![Offset { x: 0, y: 3 }]);
    assert_eq!(
        c.outputs,
        vec![
            Offset { x: 3, y: 0 },
            Offset { x: 3, y: 1 },
            Offset { x: 3, y: 2 },
            Offset { x: 3, y: 3 }
        ]
    );
    let s = StructureKind::SingleStorage.connectors();
    assert!(s.inputs.is_empty());
    assert_eq!(s.outputs, vec![Offset::null()]);
    assert_eq!(StructureKind::Refinery.size(), Size { w: 6, h: 2 });
    assert_eq!(StructureKind::StorageVault.width(), 5);
    assert_eq!(StructureKind::Unifier.height(), 5);
    assert_eq!(StructureKind::Splitter.object_number(), 23);
    assert_eq!(StructureKind::StorageVault.object_number(), 0);
    assert_eq!(StructureKind::Merger.struct_template().len(), 4);
}

#[test]
fn blank_data_from_kind() {
    let d = StructureData::from(StructureKind::StorageVault);
    assert_eq!(d.kind(), StructureKind::StorageVault);
    assert_eq!(d.get_storage(), &[Item::Empty; 16][..]);
    assert_eq!(d.record_items(), vec![Item::Empty, Item::Empty]);
    assert_eq!(d.size(), Size { w: 5, h: 2 });
    let r = StructureData::from(StructureKind::Refinery);
    assert_eq!(r.get_storage().len(), 12);
    let a = StructureData::from(StructureKind::AirPump);
    assert!(a.get_storage().is_empty());
    assert_eq!(a, StructureData::AirPump { output: Item::Empty });
}

#[test]
fn record_items_follow_record_order() {
    let d = StructureData::Unifier {
        inputs: [Item::CopperCoin, Item::SilverCoin, Item::GoldCoin],
        output: Item::LifeForce,
    };
    assert_eq!(
        d.record_items(),
        vec![Item::LifeForce, Item::CopperCoin, Item::SilverCoin, Item::GoldCoin]
    );
}
