use mhw_toolkit::chat::{send_chat_message, ChatMessageReceiver, ChatMessageSender, SendTarget, SpecializedToolType};
use mhw_toolkit::memory::{follow_chain, read_c_string, read_i32, read_u64, MemorySnapshot, ProcessMemory};
use mhw_toolkit::resources::abnormalities::{Abnormality, AbnormalityService, Consumable, SkillAbnormality, ConsumableService, Debuff, DebuffService, TimerSource};
use mhw_toolkit::resources::action::{ActionController, ActionInfo, Entity};
use mhw_toolkit::resources::mt_types::{MtArray, MtObject};
use mhw_toolkit::resources::player::{Player, PlayerShortInfo, PlayerStatus, ShortLevelInfo, WeaponInfo};
use mhw_toolkit::resources::quest::Quest;
use mhw_toolkit::resources::save::SaveData;
use mhw_toolkit::scan::MemoryWindow;

fn snapshot(parts: Vec<(u64, Vec<u8>)>) -> MemorySnapshot {
    MemorySnapshot { windows: parts.into_iter().map(|(base, bytes)| MemoryWindow { base, bytes }).collect() }
}

fn put(bytes: &mut [u8], at: usize, value: &[u8]) {
    bytes[at..at + value.len()].copy_from_slice(value);
}

#[test]
fn snapshot_reads_little_endian_values() {
    let mut bytes = vec![0u8; 32];
    put(&mut bytes, 8, &7u32.to_le_bytes());
    put(&mut bytes, 12, &(-5i32).to_le_bytes());
    put(&mut bytes, 16, &0x1122334455667788u64.to_le_bytes());
    let mem = snapshot(vec![(0x1000, bytes)]);
    assert_eq!(read_i32(&mem, Some(0x100C)), Some(-5));
    assert_eq!(read_u64(&mem, Some(0x1010)), Some(0x1122334455667788));
    assert_eq!(read_u64(&mem, Some(0x101C)), None);
    assert_eq!(read_i32(&mem, None), None);
    let array = MtArray::new(0x1000);
    assert_eq!(array.length(&mem), Some(7));
    assert_eq!(array.is_empty(&mem), Some(false));
    assert_eq!(MtArray::new(0x2000).length(&mem), None);
}

#[test]
fn snapshot_writes_where_it_can() {
    let mut mem = snapshot(vec![(0x10, vec![0u8; 4])]);
    assert!(mem.write(0x11, &[9, 8]));
    assert_eq!(mem.read(0x10, 4), Some(vec![0, 9, 8, 0]));
    assert!(!mem.write(0x13, &[1, 2]));
}

#[test]
fn pointer_chains_stop_at_null() {
    let mut a = vec![0u8; 16];
    put(&mut a, 0, &0x2000u64.to_le_bytes());
    let mut b = vec![0u8; 16];
    put(&mut b, 8, &0u64.to_le_bytes());
    let mem = snapshot(vec![(0x1000, a), (0x2000, b)]);
    assert_eq!(follow_chain(&mem, 0x1000, &[8]), Some(0x2008));
    assert_eq!(follow_chain(&mem, 0x1000, &[8, 4]), None);
    assert_eq!(follow_chain(&mem, 0, &[]), None);
    assert_eq!(follow_chain(&mem, 0x1000, &[]), Some(0x1000));
}

#[test]
fn c_strings_end_at_zero() {
    let mem = snapshot(vec![(0x40, b"abc\0def".to_vec())]);
    assert_eq!(read_c_string(&mem, 0x40), Some(b"abc".to_vec()));
    assert_eq!(read_c_string(&mem, 0x44), None);
}

#[test]
fn action_controller_reads_and_forces_actions() {
    let mut bytes = vec![0u8; 0x110];
    put(&mut bytes, 0xAC, &3i32.to_le_bytes());
    put(&mut bytes, 0xB0, &17i32.to_le_bytes());
    put(&mut bytes, 0x100, &0xABCDu64.to_le_bytes());
    let mut mem = snapshot(vec![(0x5000, bytes)]);
    let c = ActionController::from_instance(0x5000);
    assert_eq!(c.current_action(&mem), Some(ActionInfo { set: 3, id: 17 }));
    assert_eq!(c.owner(&mem), Some(0xABCD));
    assert!(c.force_derive(&mut mem, ActionInfo { set: 1, id: 2 }));
    assert_eq!(c.next_action(&mem), Some(ActionInfo { set: 1, id: 2 }));
}

#[test]
fn player_fields_and_status() {
    let player_base = 0x1450139A0u64;
    let mut table = vec![0u8; 0x60];
    put(&mut table, 0, &0x9000u64.to_le_bytes());
    let mut holder = vec![0u8; 0x60];
    put(&mut holder, 0x50, &0x7000u64.to_le_bytes());
    let mut player = vec![0u8; 0x10E0];
    put(&mut player, 0x10D8, &42i32.to_le_bytes());
    let mem = snapshot(vec![(player_base, table), (0x9000, holder), (0x7000, player)]);
    let p = Player::current_player(&mem).unwrap();
    assert_eq!(p.quest_id(&mem), Some(42));
    assert!(Player::from_index(&mem, 20).is_none());
    assert_eq!(p.action_controller().unwrap(), ActionController::from_instance(0x7000 + 0x61C8));

    let mut info = vec![0u8; 0x100];
    put(&mut info, 0x49, b"Hunter\0");
    put(&mut info, 0x70, &50i16.to_le_bytes());
    put(&mut info, 0x72, &(-2i16).to_le_bytes());
    put(&mut info, 0x74, &9i32.to_le_bytes());
    put(&mut info, 0x7C, &3i32.to_le_bytes());
    info[0x86] = 7;
    info[0x84] = 1;
    let mem = snapshot(vec![(0x3000, info)]);
    let s = Quest::from_instance(0).quest_state(&mem);
    assert_eq!(s, None);
    let short = short_info_at(0x3000);
    assert_eq!(short.level(&mem), Some(ShortLevelInfo { hr: 50, mr: -2 }));
    assert_eq!(short.weapon(&mem), Some(WeaponInfo { weapon_type: 3, id: 9 }));
    assert_eq!(short.status(&mem), Some(PlayerStatus::Rescue));
}

fn short_info_at(addr: u64) -> PlayerShortInfo {
    PlayerShortInfo::from_instance(addr)
}

#[test]
fn quest_state_is_read_and_written() {
    let mut mem = snapshot(vec![(0x14500ED30, 0x60000u64.to_le_bytes().to_vec()), (0x60000, vec![0u8; 0x40])]);
    let q = Quest::new_static(&mem).unwrap();
    assert_eq!(q.quest_state(&mem), Some(0));
    assert!(q.quest_state_mut(&mut mem, -3));
    assert_eq!(q.quest_state(&mem), Some(-3));
    let low = snapshot(vec![(0x14500ED30, 0x100u64.to_le_bytes().to_vec())]);
    assert!(Quest::new_static(&low).is_none());
}

#[test]
fn save_slots() {
    let save_base = 0x145011710u64;
    let mut holder = vec![0u8; 0xB0];
    put(&mut holder, 0xA0, &1i32.to_le_bytes());
    put(&mut holder, 0xA8, &0x8888u64.to_le_bytes());
    let mem = snapshot(vec![(save_base, 0x4000u64.to_le_bytes().to_vec()), (0x4000, holder)]);
    assert_eq!(SaveData::from_index(&mem, 2), Some(SaveData { instance: 0x8888, save_offset: 2 * 0x26CC00 }));
    assert_eq!(SaveData::from_index(&mem, 3), None);
    assert_eq!(SaveData::current_save(&mem), Some(SaveData { instance: 0x8888, save_offset: 0x26CC00 }));
}

#[test]
fn consumable_categories_decide_timers() {
    let mut block = vec![0u8; 0x700];
    put(&mut block, 0x6A4, &25i32.to_le_bytes());
    put(&mut block, 0x62C, &0i32.to_le_bytes());
    let mem = snapshot(vec![(0x100, 0x2000u64.to_le_bytes().to_vec()), (0x2000, block)]);
    let service = ConsumableService::new(0x100);
    assert_eq!(service.get_category(&mem, Consumable::MightSeed), Some(Consumable::MightPill));
    assert_eq!(service.timer_source(&mem, Consumable::MightSeed), TimerSource::Inactive);
    assert_eq!(service.timer_source(&mem, Consumable::MightPill), TimerSource::At(0x6A0));
    assert_eq!(service.timer_source(&mem, Consumable::DashJuice), TimerSource::At(0x690));
    let debuffs = DebuffService::new(0x100);
    assert_eq!(debuffs.timer_source(&mem, Debuff::BlastScourge), TimerSource::Inactive);
    assert_eq!(debuffs.timer_source(&mem, Debuff::Blast), TimerSource::At(0x620));
    assert!(AbnormalityService::new(&mem).is_none());
}

#[test]
fn chat_queue_and_targets() {
    let mut sender = ChatMessageSender::new();
    sender.send("hello");
    sender.send_ex("hi", SendTarget::Specified(77));
    let first = sender.next_message().unwrap();
    assert_eq!(first.msg, "hello");
    assert_eq!(first.target, SendTarget::Default);
    assert_eq!(sender.next_message().unwrap().target, SendTarget::Specified(77));
    assert!(sender.next_message().is_none());
    assert_eq!(SendTarget::from(2), SendTarget::Specified(0));
    assert_eq!(SendTarget::from(9), SendTarget::Default);
    assert_eq!(SendTarget::All.as_i32(), 4);
    assert_eq!(SpecializedToolType::from(9), SpecializedToolType::DragonproofMantle);
    assert_eq!(SpecializedToolType::from(-4), SpecializedToolType::NoTool);
    assert!(SpecializedToolType::ThunderproofMantle == 9);
    let mem = snapshot(vec![]);
    assert!(!ChatMessageSender::can_send(&mem));
    assert_eq!(ChatMessageSender::get_current_send_target(&mem), SendTarget::All);
}

#[test]
fn chat_receiver_takes_prefixed_messages_once() {
    let base = 0x144F87FF0u64;
    let mut block = vec![0u8; 0x200];
    put(&mut block, 0xBC, &5i32.to_le_bytes());
    put(&mut block, 0xC0, b"!ping");
    let mut mem = snapshot(vec![(base, 0x7000u64.to_le_bytes().to_vec()), (0x7000, block)]);
    let mut receiver = ChatMessageReceiver::new();
    receiver.set_prefix_filter("?");
    assert_eq!(receiver.try_recv(&mut mem), None);
    receiver.set_prefix_filter("!");
    assert!(receiver.accepts("!x") && !receiver.accepts("x!"));
    assert_eq!(receiver.try_recv(&mut mem), Some("!ping".to_string()));
    assert_eq!(receiver.try_recv(&mut mem), None);
}

#[test]
fn chat_messages_fill_the_buffer_and_raise_the_flag() {
    let base = 0x1451C4640u64;
    let mut ui = vec![0u8; 0x3300];
    ui[0x325E] = 0;
    let mut mem = snapshot(vec![
        (base, 0x10000u64.to_le_bytes().to_vec()),
        (0x10000 + 0x13FD0, 0x50000u64.to_le_bytes().to_vec()),
        (0x50000, std::mem::take(&mut ui)),
    ]);
    assert!(ChatMessageSender::can_send(&mem));
    assert!(!send_chat_message(&mut mem, ""));
    assert!(send_chat_message(&mut mem, "hi"));
    let text = mem.read(0x50000 + 0x28F8 + 0x165, 128).unwrap();
    assert_eq!(&text[..3], b"hi\0");
    assert!(text[3..].iter().all(|&b| b == 0));
    assert_eq!(mem.read(0x50000 + 0x325E, 1), Some(vec![1]));
    assert!(!ChatMessageSender::can_send(&mem));
    let long = "x".repeat(200);
    assert!(send_chat_message(&mut mem, &long));
    let text = mem.read(0x50000 + 0x28F8 + 0x165, 128).unwrap();
    assert!(text[..127].iter().all(|&b| b == b'x'));
    assert_eq!(text[127], 0);
}

#[test]
fn abnormalities_parse_by_kind_and_name() {
    assert_eq!(Abnormality::from_str("Consumable::DashJuice"), Ok(Abnormality::Consumable(Consumable::DashJuice)));
    assert_eq!(Abnormality::from_str("Skill::Fortify"), Ok(Abnormality::Skill(SkillAbnormality::Fortify)));
    assert_eq!(Abnormality::from_str("Debuff::Bleed"), Ok(Abnormality::Debuff(Debuff::Bleed)));
    assert_eq!(Abnormality::from_str("Consumable::Fortify"), Err("Invalid Abnormality".to_string()));
    assert_eq!(Abnormality::from_str("DashJuice"), Err("Invalid Abnormality".to_string()));
}

#[test]
fn player_names_are_zero_terminated() {
    let mut info = vec![0u8; 0x100];
    put(&mut info, 0x49, b"Ann\0");
    let mem = snapshot(vec![(0x3000, info)]);
    assert_eq!(short_info_at(0x3000).name(&mem), Some(b"Ann".to_vec()));
}
