use video_chess_core::firmware::{
    VideoChess, AI_STATE_F7, CURRENT_PLAYER_EE, DIFFICULTY_E4, GAME_FLAGS_E2, GAME_TIMER_D3,
    MOVE_FLAGS_E5, MOVE_FLAGS_E7, MOVE_STATE_F3, MOVE_TIMER_F4, RANDOM_SEED_E9, TIMER_HIGH_F0,
    TIMER_LOW_F1, UNKNOWN_D4, UNKNOWN_D5, UNKNOWN_D6, UNKNOWN_D7, UNKNOWN_D8, UNKNOWN_D9,
    UNKNOWN_F5, UNKNOWN_F6,
};

fn set_up() -> VideoChess {
    let mut vc = VideoChess::new();
    vc.board_setup();
    vc
}

#[test]
fn new_ram_is_zero() {
    let vc = VideoChess::new();
    assert!(vc.ram.iter().all(|b| *b == 0));
}

#[test]
fn board_setup_snapshot() {
    let vc = set_up();
    assert_eq!(vc.ram[0x80..0x88], [5, 4, 3, 2, 1, 3, 4, 5]);
    assert_eq!(vc.ram[0x88..0x90], [0x46; 8]);
    assert!(vc.ram[0x90..0xb0].iter().all(|b| *b == 0));
    assert_eq!(vc.ram[0xb0..0xb8], [0x8e; 8]);
    assert_eq!(vc.ram[0xb8..0xc0], [0x0d, 0x0c, 0x0b, 0x0a, 0x09, 0x0b, 0x0c, 0x0d]);
    assert_eq!(vc.ram[0xe4], 0);
    assert_eq!(vc.ram[0xe2], 0xff);
    assert_eq!(vc.ram[0xe5], 0xff);
    assert_eq!(vc.ram[0xe7], 0);
    assert_eq!(vc.ram[0xee], 3);
    assert_eq!(vc.ram[0xf7], 0xff);
    assert_eq!(vc.ram[0xf3], 0);
    assert_eq!(vc.ram[0xf4], 32);
    assert_eq!(vc.ram[0xd4], 0x23);
    assert_eq!(vc.ram[0xd5], 0x23);
    assert_eq!(vc.ram[0xd8], 0x23);
    assert_eq!(vc.ram[0xd9..0xde], vc.ram[0xd4..0xd9]);
    assert_eq!(vc.ram[0xd9..0xde], [0x23, 0x23, 0, 0, 0x23]);
}

#[test]
fn board_setup_is_deterministic() {
    let a = set_up();
    let b = set_up();
    assert_eq!(a.ram, b.ram);
}

#[test]
fn board_setup_layout_per_column() {
    let vc = set_up();
    let template = [5u8, 4, 3, 2, 1, 3, 4, 5];
    for c in 0..8 {
        assert_eq!(vc.ram[0x80 + c], template[c]);
        assert_eq!(vc.ram[0x80 + 56 + c], template[c] | 0x08);
        assert_eq!(vc.ram[0x80 + 48 + c], 0x8e);
        assert_eq!(vc.ram[0x80 + 8 + c], 0x46);
        for r in 2..6 {
            assert_eq!(vc.ram[0x80 + 8 * r + c], 0);
        }
    }
}

#[test]
fn board_setup_keeps_unnamed_cells() {
    let mut vc = VideoChess::new();
    for i in 0..256 {
        vc.ram[i] = 0x5a;
    }
    vc.board_setup();
    assert_eq!(vc.ram[0x00], 0x5a);
    assert_eq!(vc.ram[0x7f], 0x5a);
    assert_eq!(vc.ram[GAME_TIMER_D3], 0x5a);
    assert_eq!(vc.ram[RANDOM_SEED_E9], 0x5a);
    assert_eq!(vc.ram[0xed], 0x5a);
    assert_eq!(vc.ram[0xff], 0x5a);
    assert_eq!(vc.ram[0xc0], 0x5a);
    assert_eq!(vc.ram[0x90], 0);
    assert_eq!(vc.ram[UNKNOWN_D6], 0);
    assert_eq!(vc.ram[UNKNOWN_D7], 0);
    assert_eq!(vc.ram[0xd9..0xde], [0x23, 0x23, 0, 0, 0x23]);
}

#[test]
fn board_setup_named_cells() {
    let vc = set_up();
    assert_eq!(vc.ram[DIFFICULTY_E4], 0);
    assert_eq!(vc.ram[GAME_FLAGS_E2], 0xff);
    assert_eq!(vc.ram[AI_STATE_F7], 0xff);
    assert_eq!(vc.ram[MOVE_FLAGS_E5], 0xff);
    assert_eq!(vc.ram[MOVE_STATE_F3], 0);
    assert_eq!(vc.ram[MOVE_FLAGS_E7], 0);
    assert_eq!(vc.ram[CURRENT_PLAYER_EE], 3);
    assert_eq!(vc.ram[UNKNOWN_D4], 0x23);
    assert_eq!(vc.ram[UNKNOWN_D5], 0x23);
    assert_eq!(vc.ram[UNKNOWN_D8], 0x23);
}

#[test]
fn game_init_writes_and_copies() {
    let mut vc = VideoChess::new();
    for i in 0..256 {
        vc.ram[i] = i as u8;
    }
    vc.game_init(0x77);
    assert_eq!(vc.ram[UNKNOWN_D6], 0x77);
    assert_eq!(vc.ram[UNKNOWN_D7], 0x77);
    assert_eq!(vc.ram[TIMER_LOW_F1], 0);
    assert_eq!(vc.ram[TIMER_HIGH_F0], 0);
    assert_eq!(vc.ram[MOVE_TIMER_F4], 32);
    assert_eq!(vc.ram[UNKNOWN_F5], 0);
    assert_eq!(vc.ram[UNKNOWN_F6], 0);
    assert_eq!(vc.ram[UNKNOWN_D9..UNKNOWN_D9 + 5], [0xd4, 0xd5, 0x77, 0x77, 0xd8]);
    assert_eq!(vc.ram[0xd3], 0xd3);
    assert_eq!(vc.ram[0xde], 0xde);
    assert_eq!(vc.ram[0xf7], 0xf7);
}

#[test]
fn game_init_copy_after_setup() {
    let vc = set_up();
    assert_eq!(vc.ram[0xd9..0xde], vc.ram[0xd4..0xd9]);
}

#[test]
fn main_loop_step_once() {
    let mut vc = set_up();
    vc.main_loop();
    assert_eq!(vc.ram[0xd3], 1);
    assert_eq!(vc.ram[0xf1], 0);
    assert_eq!(vc.ram[0xf0], 0);
    assert_eq!(vc.ram[0xe9], 0xff);
}

#[test]
fn main_loop_step_wraps_d3() {
    let mut vc = set_up();
    for _ in 0..256 {
        vc.main_loop();
    }
    assert_eq!(vc.ram[0xd3], 0);
    assert_eq!(vc.ram[0xf1], 1);
    assert_eq!(vc.ram[0xf0], 0);
    assert_eq!(vc.ram[0xe9], 0xff);
}

#[test]
fn main_loop_step_wraps_f1() {
    let mut vc = VideoChess::new();
    vc.ram[0xd3] = 0xff;
    vc.ram[0xf1] = 0xff;
    vc.ram[0xf0] = 0x00;
    vc.main_loop();
    assert_eq!(vc.ram[0xd3], 0);
    assert_eq!(vc.ram[0xf1], 0);
    assert_eq!(vc.ram[0xf0], 0xff);
    assert_eq!(vc.ram[0xe9], 0xf7);
}

#[test]
fn main_loop_tick_rate_from_other_start() {
    let mut vc = VideoChess::new();
    vc.ram[GAME_TIMER_D3] = 0x42;
    vc.board_setup();
    for _ in 0..256 {
        vc.main_loop();
    }
    assert_eq!(vc.ram[GAME_TIMER_D3], 0x42);
    assert_eq!(vc.ram[TIMER_LOW_F1], 1);
}

#[test]
fn main_loop_high_byte_is_assigned_not_incremented() {
    let mut vc = VideoChess::new();
    vc.ram[0xd3] = 0xff;
    vc.ram[0xf1] = 0xff;
    vc.ram[0xf0] = 0x10;
    vc.main_loop();
    assert_eq!(vc.ram[0xf0], 0xff);
    assert_eq!(vc.ram[0xe9], 0xf7);
}

#[test]
fn main_loop_seed_derivation() {
    for h in 0..=255u8 {
        let mut vc = VideoChess::new();
        vc.ram[0xf0] = h;
        vc.main_loop();
        assert_eq!(vc.ram[0xe9], (vc.ram[0xf0] ^ 0xff) | 0xf7);
        assert_eq!(vc.ram[0xe9] & 0xf7, 0xf7);
    }
    let mut vc = VideoChess::new();
    vc.ram[0xf0] = 0x08;
    vc.main_loop();
    assert_eq!(vc.ram[0xe9], 0xf7);
}
