use yeelamp::cmd::{Action, Command, Effect, SmoothDuration};

const MILLI: u128 = 1_000_000;
const SECOND: u128 = 1_000_000_000;

#[test]
fn create_smooth_zero_secs() {
    let result: Effect = Effect::from_nanos(0 * SECOND);
    assert_eq!(result, Effect::Sudden);
}

#[test]
fn create_smooth_zero_millis() {
    let result: Effect = Effect::from_nanos(0 * MILLI);
    assert_eq!(result, Effect::Sudden);
}

#[test]
fn create_smooth_short_1() {
    let result: Effect = Effect::from_nanos(10 * MILLI);
    let expect: Effect = Effect::from_nanos(30 * MILLI);
    assert_eq!(result, expect);
}

#[test]
fn create_smooth_short_2() {
    let result: Effect = Effect::from_nanos(25 * MILLI);
    let expect: Effect = Effect::from_nanos(30 * MILLI);
    assert_eq!(result, expect);
}

#[test]
fn create_smooth_long() {
    let result: Effect = Effect::from_nanos(2000 * MILLI);
    let expect: Effect = Effect::from_nanos(2 * SECOND);
    assert_eq!(result, expect);
}

#[test]
fn into_smoothduration_short() {
    let smoothdur: SmoothDuration = SmoothDuration::from_nanos(10 * MILLI);
    let result = Effect::Smooth(smoothdur);
    let expect: Effect = Effect::from_nanos(30 * MILLI);
    assert_eq!(result, expect);
}

#[test]
fn into_smoothduration_long() {
    let smoothdur: SmoothDuration = SmoothDuration::from_nanos(3 * SECOND);
    let result = Effect::Smooth(smoothdur);
    let expect: Effect = Effect::from_nanos(3000 * MILLI);
    assert_eq!(result, expect);
}

#[test]
fn rgb_eq() {
    let rgb_1 = Action::new_rgb_from_int(0xDEADFEu32);
    let rgb_2 = Action::new_rgb_from_parts(222, 173, 254);
    assert_eq!(rgb_1, rgb_2);
}

#[test]
fn rgb_eqne() {
    let rgb_1 = Action::new_rgb_from_int(0xA61A3Au32);
    let rgb_2_wrong = Action::new_rgb_from_parts(58, 26, 166);
    assert_ne!(rgb_1, rgb_2_wrong);
    let rgb_2_right = Action::new_rgb_from_parts(166, 26, 58);
    assert_ne!(rgb_2_wrong, rgb_2_right);
    assert_eq!(rgb_1, rgb_2_right);
}

#[test]
fn ct_range_edges() {
    assert!(Action::new_ct(1699).is_none());
    assert!(Action::new_ct(1700).is_some());
    assert!(Action::new_ct(6500).is_some());
    assert!(Action::new_ct(6501).is_none());
    assert!(Action::new_ct(0).is_none());
    assert!(Action::new_ct(u16::MAX).is_none());
}

#[test]
fn rgb_from_int_masks_high_byte() {
    let masked = Action::new_rgb_from_int(0xFFDEADFEu32);
    let plain = Action::new_rgb_from_int(0x00DEADFEu32);
    assert_eq!(masked, plain);
}

#[test]
fn encode_ct_smooth() {
    let cmd = Command {
        action: Action::new_ct(3200).unwrap(),
        eff: Effect::smooth(3000 * MILLI),
        id: 32,
    };
    assert_eq!(
        cmd.to_request(),
        "{\"id\":32,\"method\":\"set_ct_abx\",\"params\":[3200,\"smooth\",3000]}"
    );
    assert_eq!(
        cmd.to_wire_line(),
        "{\"id\":32,\"method\":\"set_ct_abx\",\"params\":[3200,\"smooth\",3000]}\r\n"
    );
}

#[test]
fn encode_rgb_sudden() {
    let cmd = Command {
        action: Action::new_rgb_from_parts(222, 173, 254).unwrap(),
        eff: Effect::sudden(),
        id: 1,
    };
    assert_eq!(
        cmd.to_request(),
        "{\"id\":1,\"method\":\"set_rgb\",\"params\":[14593534,\"sudden\"]}"
    );
}

#[test]
fn encode_masked_rgb_value() {
    let cmd = Command {
        action: Action::new_rgb_from_int(0xFFDEADFEu32).unwrap(),
        eff: Effect::sudden(),
        id: 0,
    };
    assert_eq!(
        cmd.to_request(),
        "{\"id\":0,\"method\":\"set_rgb\",\"params\":[14593534,\"sudden\"]}"
    );
}

#[test]
fn smooth_constructor_floors_zero() {
    // Unlike the duration conversion, the smooth constructor never turns
    // a zero duration into a sudden transition: it floors it to 30 ms.
    let result: Effect = Effect::smooth(0);
    let expect: Effect = Effect::from_nanos(30 * MILLI);
    assert_eq!(result, expect);
    assert_ne!(result, Effect::Sudden);
}

#[test]
fn sudden_constructor() {
    assert_eq!(Effect::sudden(), Effect::Sudden);
}

#[test]
fn submillisecond_duration_is_smooth() {
    // One nanosecond is not zero, so the transition is smooth, floored.
    let result: Effect = Effect::from_nanos(1);
    match result {
        Effect::Smooth(d) => {
            assert_eq!(d.as_nanos(), 30 * MILLI);
            assert_eq!(d.as_millis(), 30);
        }
        Effect::Sudden => panic!("a non-zero duration must give a smooth transition"),
    }
}

#[test]
fn smoothduration_keeps_long_values_exactly() {
    let d = SmoothDuration::from_nanos(2_500_000_001);
    assert_eq!(d.as_nanos(), 2_500_000_001);
    assert_eq!(d.as_millis(), 2500);
}
