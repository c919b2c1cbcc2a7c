use rr_driver::interface::{Buttons, Dpad, Packet};
use rr_driver::rr_core::external_driver::interface::Packet as IdPacket;
use rr_driver::rr_core::external_driver::interface::SerialMessage;
use rr_driver::rr_core::external_driver::serial_link::{plain_step, serial_frame, SmoothLink};
use rr_driver::rr_core::external_driver::{SerialAction, SerialManager};
use rr_driver::rr_core::utils::{ComboBox, LogManager};
use rr_driver::text::{push_int, push_int_padded, push_nat, text_contains};

fn last_log(m: &SerialManager) -> String {
    m.logger.lines.last().unwrap().clone()
}

#[test]
fn dpad_starts_released() {
    let pad = Dpad::new();
    assert!(!pad.up_key && !pad.down_key && !pad.left_key && !pad.right_key);
}

#[test]
fn buttons_start_released() {
    let b = Buttons::new();
    assert!(!b.circle && !b.cross && !b.triangle && !b.cube);
    assert!(!b.r1 && !b.r2 && !b.l1 && !b.l2 && !b.left_push && !b.right_push);
}

#[test]
fn packet_new_is_zero_and_from_value_keeps_values() {
    assert_eq!(Packet::new(), Packet { x: 0, y: 0, ro: 0, m1: 0, m2: 0 });
    assert_eq!(Packet::from_value(1, -2, 3, -4, 5), Packet { x: 1, y: -2, ro: 3, m1: -4, m2: 5 });
}

#[test]
fn id_packet_new_keeps_values() {
    let p = IdPacket::new(7, 1, 2, 3, 4, 5);
    assert_eq!(p, IdPacket { id: 7, x: 1, y: 2, ro: 3, m1: 4, m2: 5 });
}

#[test]
fn id_packet_text_pads_to_three_columns() {
    let p = IdPacket::new(3, 5, -12, 100, 1234, -7);
    assert_eq!(p.get_string(), "ID:3   [x:  5,y:-12,ro:100,m1:1234,m2: -7]");
    let q = IdPacket::new(65535, i32::MIN, 0, -1, 99, i32::MAX);
    assert_eq!(
        q.get_string(),
        format!("ID:65535   [x:{:3},y:{:3},ro:{:3},m1:{:3},m2:{:3}]", i32::MIN, 0, -1, 99, i32::MAX)
    );
}

#[test]
fn decimal_text_matches_std() {
    for v in [0i64, 7, 10, -1, -10, 123456789, i64::MIN, i64::MAX] {
        let mut s = String::from("<");
        push_int(&mut s, v);
        assert_eq!(s, format!("<{}", v));
        let mut p = String::new();
        push_int_padded(&mut p, v, 5);
        assert_eq!(p, format!("{:5}", v));
    }
    let mut n = String::new();
    push_nat(&mut n, u64::MAX);
    assert_eq!(n, u64::MAX.to_string());
}

#[test]
fn substring_search() {
    assert!(text_contains("/dev/ttyS0", "/dev/ttyS"));
    assert!(text_contains("x/dev/ttyS", "/dev/ttyS"));
    assert!(!text_contains("/dev/ttyUSB0", "/dev/ttyS"));
    assert!(!text_contains("/dev/tty", "/dev/ttyS"));
    assert!(text_contains("", ""));
    assert!(text_contains("ポート/dev/ttyS1", "/dev/ttyS"));
}

#[test]
fn frame_of_packet() {
    let p = Packet::from_value(123, -45, 0, 9, -9);
    assert_eq!(serial_frame(&p, false), "s22,6,10,10,10e");
    assert_eq!(serial_frame(&p, true), "s22,6,10,10e");
    let big = Packet::from_value(i32::MAX, i32::MIN, -100, 100, -95);
    assert_eq!(serial_frame(&big, false), "s214748374,-214748354,0,20,1e");
}

#[test]
fn plain_link_falls_back_to_ten() {
    assert_eq!(plain_step(None, false), "s11,11,11,11,11e");
    assert_eq!(plain_step(None, true), "s11,11,11,11e");
    assert_eq!(plain_step(Some(Packet::from_value(50, 60, 70, 80, 90)), false), "s15,16,17,18,19e");
}

#[test]
fn smoothing_moves_one_gain_toward_target() {
    let mut link = SmoothLink::new();
    assert_eq!(link.send, Packet::from_value(100, 100, 100, 100, 100));
    let frame = link.step(Some(Packet::from_value(105, 100, 90, 100, 0)), 2, false);
    assert_eq!(link.send, Packet::from_value(102, 100, 98, 100, 98));
    assert_eq!(link.history, link.send);
    assert_eq!(frame, "s20,20,19,20,19e");
}

#[test]
fn smoothing_falls_back_to_zero_target() {
    let mut link = SmoothLink::new();
    let frame = link.step(None, 5, true);
    assert_eq!(link.send, Packet::from_value(95, 95, 95, 95, 95));
    assert_eq!(frame, "s19,19,19,19e");
}

#[test]
fn unit_gain_settles_and_stays() {
    let mut link = SmoothLink::new();
    let target = Packet::from_value(103, 97, 100, 100, 100);
    for _ in 0..3 {
        link.step(Some(target), 1, false);
    }
    assert_eq!(link.send, target);
    for _ in 0..5 {
        link.step(Some(target), 1, false);
        assert_eq!(link.send, target);
    }
}

#[test]
fn combo_and_log_helpers() {
    let c = ComboBox::new(vec![1usize, 2]);
    assert_eq!(c.all, vec![1, 2]);
    assert!(c.selected.is_none());
    let mut log = LogManager::new();
    assert!(log.lines.is_empty());
    log.add_str(String::from("a"));
    log.add_str(String::from("b"));
    assert_eq!(log.lines, vec!["a".to_string(), "b".to_string()]);
}

#[test]
fn manager_starts_empty() {
    let m = SerialManager::new();
    assert_eq!(m.driver_num, 0);
    assert!(m.id.is_empty());
    assert!(m.id_box.all.is_empty() && m.id_box.selected.is_none());
    assert!(!m.is_small_packet && !m.is_smooth);
    assert_eq!((m.conn_count, m.thread_count), (1, 1));
    assert!(m.path_list.is_none());
    assert_eq!(m.selected, "");
    assert_eq!(m.smooth_value, 1);
    assert!(m.logger.lines.is_empty());
    assert_eq!(m.title(), "シリアル設定");
}

#[test]
fn port_selection_and_scan() {
    let mut m = SerialManager::new();
    let a = m.update(SerialMessage::PortSelected(String::from("/dev/ttyUSB0")));
    assert!(matches!(a, SerialAction::Idle));
    assert_eq!(m.selected, "/dev/ttyUSB0");
    assert_eq!(last_log(&m), "Port path selected: /dev/ttyUSB0");
    let a = m.update(SerialMessage::SerialScan);
    assert!(matches!(a, SerialAction::ScanPorts));
    assert_eq!(last_log(&m), "Search available port.");
    m.search_port(Some(vec![
        String::from("/dev/ttyS0"),
        String::from("/dev/ttyUSB0"),
        String::from("/dev/ttyS1"),
        String::from("/dev/ttyACM0"),
    ]));
    let list = m.path_list.as_ref().unwrap();
    assert_eq!(list.all, vec!["/dev/ttyUSB0".to_string(), "/dev/ttyACM0".to_string()]);
    assert!(list.selected.is_none());
    m.search_port(None);
    assert!(m.path_list.is_none());
    assert_eq!(m.logger.lines.len(), 2);
}

#[test]
fn option_messages_log_their_change() {
    let mut m = SerialManager::new();
    m.update(SerialMessage::SetPacketSize(true));
    assert!(m.is_small_packet);
    assert_eq!(last_log(&m), "Set small packet is enable.");
    m.update(SerialMessage::SetPacketSize(false));
    assert!(!m.is_small_packet);
    assert_eq!(last_log(&m), "Set small packet is disable.");
    m.update(SerialMessage::SetSmooth(true));
    assert!(m.is_smooth);
    assert_eq!(last_log(&m), "Set smoother to enable");
    m.update(SerialMessage::SetSmooth(false));
    assert_eq!(last_log(&m), "Set smoother to disable");
    m.update(SerialMessage::SmoothValue(-15));
    assert_eq!(m.smooth_value, -15);
    assert_eq!(last_log(&m), "Set smooth gain : -15");
    m.update(SerialMessage::ThreadID(42));
    assert_eq!(m.id_box.selected, Some(42));
    assert_eq!(last_log(&m), "Select thread id :42");
    let before = m.logger.lines.len();
    let a = m.update(SerialMessage::SetIM920(true));
    assert!(matches!(a, SerialAction::Idle));
    assert_eq!(m.logger.lines.len(), before);
}

#[test]
fn start_plain_and_smooth_links() {
    let mut m = SerialManager::new();
    m.update(SerialMessage::PortSelected(String::from("COM3")));
    m.update(SerialMessage::SetPacketSize(true));
    match m.update(SerialMessage::SerialStart) {
        SerialAction::Launch(plan) => {
            assert_eq!(plan.port, "COM3");
            assert_eq!(plan.slot, 0);
            assert!(plan.small_packet);
            assert_eq!(plan.smooth_value, None);
        }
        _ => panic!("a start must launch a link"),
    }
    assert_eq!(last_log(&m), "Start Serial at COM3");
    m.update(SerialMessage::SetSmooth(true));
    m.update(SerialMessage::SmoothValue(3));
    match m.update(SerialMessage::SerialStart) {
        SerialAction::Launch(plan) => {
            assert_eq!(plan.slot, 1);
            assert_eq!(plan.smooth_value, Some(3));
        }
        _ => panic!("a start must launch a link"),
    }
    assert_eq!(last_log(&m), "Start Serial with smoother at COM3");
    assert_eq!(m.driver_num, 2);
    assert_eq!(m.id, vec![0, 1]);
    assert_eq!(m.id_box.all, vec![0, 1]);
    assert_eq!((m.conn_count, m.thread_count), (3, 3));
}

#[test]
fn stop_without_choice_only_logs() {
    let mut m = SerialManager::new();
    let a = m.update(SerialMessage::ThreadStop);
    assert!(matches!(a, SerialAction::Idle));
    assert_eq!(last_log(&m), "Don't select thread ID.");
    assert_eq!(m.driver_num, 0);
}

#[test]
fn launch_then_stop_restores_bookkeeping() {
    let mut m = SerialManager::new();
    m.update(SerialMessage::SerialStart);
    let (ids, conn, threads, driver) = (m.id.clone(), m.conn_count, m.thread_count, m.driver_num);
    m.update(SerialMessage::SerialStart);
    m.update(SerialMessage::ThreadID(1));
    let a = m.update(SerialMessage::ThreadStop);
    assert!(matches!(a, SerialAction::StopThread(1)));
    assert_eq!(last_log(&m), "Stop the thread. ID is 1");
    assert_eq!(m.id, ids);
    assert_eq!(m.conn_count, conn);
    assert_eq!(m.driver_num, driver);
    assert_eq!(m.thread_count, threads + 1);
    assert_eq!(m.id_box.selected, Some(1));
}

#[test]
fn spawn_functions_record_the_link() {
    let mut m = SerialManager::new();
    let plan = m.spawn_serial();
    assert_eq!((plan.slot, plan.smooth_value), (0, None));
    let plan = m.spawn_smooth_serial(4);
    assert_eq!((plan.slot, plan.smooth_value), (1, Some(4)));
    assert_eq!(m.id, vec![0, 1]);
    assert!(m.logger.lines.is_empty());
}
