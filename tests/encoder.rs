use atomberg_remote::action::IrAction;
use atomberg_remote::nec::{nec_encode_extended, FRAME_LEN, FREQ_HZ};

fn bit_space(set: bool) -> i32 {
    if set {
        1690
    } else {
        560
    }
}

fn check_layout(address: u16, command: u8) {
    let w = nec_encode_extended(address, command);
    assert_eq!(w.len(), 67);
    assert_eq!(w[0], 9000);
    assert_eq!(w[1], 4500);
    assert_eq!(w[66], 560);
    for i in 0..16 {
        assert_eq!(w[2 + 2 * i], 560);
        assert_eq!(w[3 + 2 * i], bit_space((address >> i) & 1 == 1));
    }
    for i in 0..8 {
        assert_eq!(w[34 + 2 * i], 560);
        assert_eq!(w[35 + 2 * i], bit_space((command >> i) & 1 == 1));
        assert_eq!(w[50 + 2 * i], 560);
        assert_eq!(w[51 + 2 * i], bit_space((command >> i) & 1 == 0));
    }
}

#[test]
fn frame_layout_holds_for_sampled_inputs() {
    let addresses: [u16; 6] = [0, 1, 0x00FF, 0xF300, 0x8000, 0xFFFF];
    let commands: [u8; 6] = [0, 1, 0x45, 0x80, 0xAA, 0xFF];
    for a in addresses {
        for c in commands {
            check_layout(a, c);
        }
    }
}

#[test]
fn frame_for_address_1_command_2() {
    let expected: Vec<i32> = vec![
        9000, 4500, 560, 1690, 560, 560, 560, 560, 560, 560, 560, 560, 560, 560, 560, 560, 560,
        560, 560, 560, 560, 560, 560, 560, 560, 560, 560, 560, 560, 560, 560, 560, 560, 560, 560,
        560, 560, 1690, 560, 560, 560, 560, 560, 560, 560, 560, 560, 560, 560, 560, 560, 1690, 560,
        560, 560, 1690, 560, 1690, 560, 1690, 560, 1690, 560, 1690, 560, 1690, 560,
    ];
    assert_eq!(nec_encode_extended(1, 2), expected);
}

#[test]
fn frame_for_address_f300_command_45() {
    let expected: Vec<i32> = vec![
        9000, 4500, 560, 560, 560, 560, 560, 560, 560, 560, 560, 560, 560, 560, 560, 560, 560, 560,
        560, 1690, 560, 1690, 560, 560, 560, 560, 560, 1690, 560, 1690, 560, 1690, 560, 1690, 560,
        1690, 560, 560, 560, 1690, 560, 560, 560, 560, 560, 560, 560, 1690, 560, 560, 560, 560, 560,
        1690, 560, 560, 560, 1690, 560, 1690, 560, 1690, 560, 560, 560, 1690, 560,
    ];
    assert_eq!(nec_encode_extended(0xF300, 0x45), expected);
}

#[test]
fn all_zero_and_all_one_inputs() {
    let zeros = nec_encode_extended(0, 0);
    assert!(zeros[2..50].iter().all(|&d| d == 560));
    for i in 0..8 {
        assert_eq!(zeros[51 + 2 * i], 1690);
    }
    let ones = nec_encode_extended(0xFFFF, 0xFF);
    for i in 0..24 {
        assert_eq!(ones[3 + 2 * i], 1690);
    }
    for i in 0..8 {
        assert_eq!(ones[51 + 2 * i], 560);
    }
}

#[test]
fn encoder_is_deterministic() {
    assert_eq!(nec_encode_extended(0x1234, 0x56), nec_encode_extended(0x1234, 0x56));
    assert_eq!(nec_encode_extended(0, 0), nec_encode_extended(0, 0));
    assert_ne!(nec_encode_extended(0x1234, 0x56), nec_encode_extended(0x1234, 0x57));
}

#[test]
fn frame_constants() {
    assert_eq!(FRAME_LEN, 67);
    assert_eq!(FREQ_HZ, 38000);
}

#[test]
fn nec_action_resolves_to_encoder_output() {
    let action = IrAction::Nec { addr: 0xF300, cmd: 0x45 };
    assert_eq!(action.resolve().as_slice(), nec_encode_extended(0xF300, 0x45).as_slice());
    let again = action.resolve();
    assert_eq!(again.len(), 67);
}

#[test]
fn raw_actions_resolve_to_their_waveform() {
    let owned = IrAction::Raw(vec![100, 200, 300]);
    assert_eq!(owned.resolve().as_slice(), &[100, 200, 300]);
    let stat: &'static [i32] = &[7, 8, 9];
    let borrowed = IrAction::RawStatic(stat);
    assert_eq!(borrowed.resolve().as_slice(), &[7, 8, 9]);
}
