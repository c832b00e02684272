use immortality_factory::catalogue::StructureKind;
use immortality_factory::export::{CLOSING_SECTIONS, INTRO_SECTION, MACHINE_TYPE_SECTION};
use immortality_factory::item::Item;
use immortality_factory::structure::StructureData;
use immortality_factory::text::{push_int, push_nat, push_usize};
use immortality_factory::world::{World, WorldRegistry};

const AIR_PUMP_RECORD: &str = "0-struct=\"{+output_list+:[{+index+:0.0,+column+:1.0,+row+:1.0,+content_column+:1.0,+type+:1,+content_row+:0.0,+content+:-1.0}],+type+:0.0,+machine_type+:{+name+:+Air Pump+,+type+:0,+description+:+Sucks in potent air from the surrounding valley and puts it in a bottle.+,+sprite+:5,+machine_cost+:{+cost_type_list+:[8,0,0,1,1,2,2,5,15,16,16,16,7,7,7,7,7,7,20,20,20,21,21,21,21,21,21],+cost_amount_list+:[3.0,2.0,4.0,4.0,4.0,4.0,3.0,4.0,5.0,3.0,3.0,3.0,4.0,4.0,3.0,3.0,2.0,2.0,3.0,3.0,2.0,3.0,3.0,2.0,2.0,1.0,1.0]},+cost_input+:0.0,+speed_increase+:8.0,+unlocked+:true,+machine_speed+:8.0},+input_list+:[]}\"\n";

const LABORATORY_RECORD: &str = "1-struct=\"{+output_list+:[],+type+:10.0,+machine_type+:{+name+:+Laboratory+,+type+:10.0,+description+:+Used to research more stuff.+,+sprite+:45.0,+machine_cost+:{+cost_type_list+:[8.0],+cost_amount_list+:[100.0]},+cost_input+:10.0,+speed_increase+:32.0,+unlocked+:0.0,+machine_speed+:4.0},+input_list+:[{+index+:0.0,+column+:0.0,+row+:1.0,+content_column+:0.0,+type+:0.0,+content_row+:0.0,+content+:-1.0}]}\"\n";

#[test]
fn decimal_rendering() {
    let mut s = String::new();
    push_nat(&mut s, 0);
    s.push(' ');
    push_nat(&mut s, 1234567890);
    s.push(' ');
    push_int(&mut s, -22);
    s.push(' ');
    push_int(&mut s, i64::MIN);
    s.push(' ');
    push_usize(&mut s, 10);
    assert_eq!(s, "0 1234567890 -22 -9223372036854775808 10");
}

#[test]
fn machine_block_matches_format() {
    let mut out = String::new();
    StructureData::from(StructureKind::AirPump).export(&mut out, 0, 0, -1);
    let expected = format!("{AIR_PUMP_RECORD}0-y=\"-22.000000\"\n0-x=\"0.000000\"\n0-object=\"3.000000\"\n");
    assert_eq!(out, expected);
}

#[test]
fn item_codes_fill_record_slots() {
    let mut out = String::new();
    StructureData::AirPump { output: Item::ManaDust }.export(&mut out, 7, 1, 2);
    assert!(out.starts_with("7-struct=\"{+output_list+:[{+index+:0.0"));
    assert!(out.contains("+content+:3.0}],+type+:0.0"));
    assert!(out.ends_with("7-y=\"44.000000\"\n7-x=\"22.000000\"\n7-object=\"3.000000\"\n"));
    let mut market = String::new();
    StructureData::SubdimensionalMarket {
        input: Item::GoldCoin,
        outputs: [Item::CopperCoin, Item::SilverCoin, Item::Empty],
    }
    .export(&mut market, 0, 0, 0);
    assert!(market.contains("+content+:6.0},"));
    assert!(market.contains("+content_row+:1.0,+content+:7},"));
    assert!(market.contains("+content_row+:2.0,+content+:-1}],"));
    assert!(market.contains("+content_row+:4.0,+content+:8.0}]}\"\n"));
}

#[test]
fn storage_slots_are_exported() {
    let mut out = String::new();
    let vault = StructureData::StorageVault {
        input: Item::PureManaGem,
        storage: [Item::PureManaGem; 16],
        output: Item::PureManaGem,
    };
    vault.export(&mut out, 2, -1, 0);
    assert!(out.contains("2-object=\"0.000000\"\n2-storage_load_at 0=\"16.000000\"\n"));
    assert!(out.ends_with("2-storage_load_at 15=\"16.000000\"\n"));
    assert_eq!(out.matches("-storage_load_at ").count(), 16);
    assert!(out.contains("2-x=\"-22.000000\"\n"));
}

#[test]
fn end_to_end_export() {
    let mut reg = WorldRegistry::new();
    let mut w = World::new(&mut reg);
    let pump = w.place(StructureKind::AirPump, 0, 0);
    let lab = w.place(StructureKind::Laboratory, 3, 0);
    w.connect(pump.output(0).unwrap(), lab.input(0).unwrap()).unwrap();
    let mut out = String::new();
    w.export(&mut out);
    let expected = format!(
        "[Intro]\n-read=\"1.000000\"\n[Machines]\n\
         {AIR_PUMP_RECORD}0-y=\"0.000000\"\n0-x=\"0.000000\"\n0-object=\"3.000000\"\n\
         {LABORATORY_RECORD}1-y=\"0.000000\"\n1-x=\"66.000000\"\n1-object=\"20.000000\"\n\
         total=\"2.000000\"\n{MACHINE_TYPE_SECTION}\
         0-struct=\"{{+point_a+:{{+x+:22.0,+y+:22.0,+type+:1}},+point_b+:{{+x+:66.0,+y+:22.0,+type+:0}}}}\"\n\
         total=\"1.000000\"\n{CLOSING_SECTIONS}"
    );
    assert_eq!(out, expected);
    assert!(out.starts_with(INTRO_SECTION));
    assert!(MACHINE_TYPE_SECTION.starts_with("[Machine-Type]\n0-cur-input=\"0.000000\"\n"));
    assert!(MACHINE_TYPE_SECTION.ends_with("13-cur-input=\"0.000000\"\n[Connections]\n"));
    assert!(CLOSING_SECTIONS.starts_with("[Research]\n0-name=\"Start Factory\"\n"));
    assert!(out.ends_with("[Game]\n-finished=\"1.000000\"\n"));
}

#[test]
fn empty_world_export() {
    let mut reg = WorldRegistry::new();
    let w = World::new(&mut reg);
    let mut out = String::from("prefix\n");
    w.export(&mut out);
    assert_eq!(
        out,
        format!(
            "prefix\n{INTRO_SECTION}total=\"0.000000\"\n{MACHINE_TYPE_SECTION}total=\"0.000000\"\n{CLOSING_SECTIONS}"
        )
    );
}
