use vstd::prelude::*;

verus! {

/// Size of the RAM image in bytes.
pub const RAM_SIZE: usize = 256;

/// First cell of the 8x8 board, stored row by row from the top rank.
pub const BOARD_BASE: usize = 0x80;

/// Game timer ($D3), incremented on each main-loop step.
pub const GAME_TIMER_D3: usize = 0xd3;

/// Unknown ($D4); part of the block shadowed into $D9-$DD.
pub const UNKNOWN_D4: usize = 0xd4;

/// Unknown ($D5).
pub const UNKNOWN_D5: usize = 0xd5;

/// Unknown ($D6); receives the game-init argument.
pub const UNKNOWN_D6: usize = 0xd6;

/// Unknown ($D7); receives the game-init argument.
pub const UNKNOWN_D7: usize = 0xd7;

/// Unknown ($D8).
pub const UNKNOWN_D8: usize = 0xd8;

/// Unknown ($D9); first cell of the shadow of $D4-$D8.
pub const UNKNOWN_D9: usize = 0xd9;

/// Unknown ($DA).
pub const UNKNOWN_DA: usize = 0xda;

/// Unknown ($DB).
pub const UNKNOWN_DB: usize = 0xdb;

/// Unknown ($DC).
pub const UNKNOWN_DC: usize = 0xdc;

/// Unknown ($DD); last cell of the shadow of $D4-$D8.
pub const UNKNOWN_DD: usize = 0xdd;

/// Number of cells copied from $D4 to $D9 by game init.
pub const SHADOW_LEN: usize = 5;

/// Game flags ($E2).
pub const GAME_FLAGS_E2: usize = 0xe2;

/// Difficulty setting ($E4).
pub const DIFFICULTY_E4: usize = 0xe4;

/// Move flags ($E5).
pub const MOVE_FLAGS_E5: usize = 0xe5;

/// Move flags ($E7).
pub const MOVE_FLAGS_E7: usize = 0xe7;

/// Random seed ($E9).
pub const RANDOM_SEED_E9: usize = 0xe9;

/// Console switches ($ED).
pub const CONSOLE_SWITCHES_ED: usize = 0xed;

/// Current player ($EE).
pub const CURRENT_PLAYER_EE: usize = 0xee;

/// Real-time timer, high byte ($F0).
pub const TIMER_HIGH_F0: usize = 0xf0;

/// Real-time timer, low byte ($F1).
pub const TIMER_LOW_F1: usize = 0xf1;

/// Move state ($F3).
pub const MOVE_STATE_F3: usize = 0xf3;

/// Move timer ($F4).
pub const MOVE_TIMER_F4: usize = 0xf4;

/// Unknown ($F5).
pub const UNKNOWN_F5: usize = 0xf5;

/// Unknown ($F6).
pub const UNKNOWN_F6: usize = 0xf6;

/// AI state ($F7).
pub const AI_STATE_F7: usize = 0xf7;

/// Piece kind: king.
pub const KING: u8 = 1;

/// Piece kind: queen.
pub const QUEEN: u8 = 2;

/// Piece kind: bishop.
pub const BISHOP: u8 = 3;

/// Piece kind: knight.
pub const KNIGHT: u8 = 4;

/// Piece kind: rook.
pub const ROOK: u8 = 5;

/// Piece kind: pawn.
pub const PAWN: u8 = 6;

/// Piece flag: white.
pub const WHITE: u8 = 0x08;

/// Piece flag: en-passant tracking of a white pawn.
pub const EN_PASSANT_WHITE: u8 = 0x80;

/// Piece flag: en-passant tracking of a black pawn.
pub const EN_PASSANT_BLACK: u8 = 0x40;

/// Value that board setup stores in $D4, $D5 and $D8.
pub const SHADOW_SEED: u8 = 0x23;

/// Value that game init stores in the move timer.
pub const MOVE_TIMER_INIT: u8 = 32;

/// Value that board setup stores in the current-player cell.
pub const FIRST_PLAYER: u8 = 3;

/// Piece in column `col` of either back rank, without the colour bit:
/// rook, knight, bishop, queen, king, bishop, knight, rook.
pub open spec fn higher_rank_piece(col: int) -> u8 {
    if col == 0 || col == 7 {
        ROOK
    } else if col == 1 || col == 6 {
        KNIGHT
    } else if col == 2 || col == 5 {
        BISHOP
    } else if col == 3 {
        QUEEN
    } else {
        KING
    }
}

/// The initial content of the board cell at `row`, `col`.
pub open spec fn initial_cell(row: int, col: int) -> u8 {
    if row == 0 {
        higher_rank_piece(col)
    } else if row == 1 {
        PAWN | EN_PASSANT_BLACK
    } else if row == 6 {
        PAWN | WHITE | EN_PASSANT_WHITE
    } else if row == 7 {
        higher_rank_piece(col) | WHITE
    } else {
        0
    }
}

/// The board cell at `row`, `col` of RAM `m`.
pub open spec fn board_cell(m: Seq<u8>, row: int, col: int) -> u8 {
    m[BOARD_BASE + 8 * row + col]
}

/// Whether `i` is the address of a board cell.
pub open spec fn is_board_addr(i: int) -> bool {
    BOARD_BASE <= i < BOARD_BASE + 64
}

/// The initial content of the board cell at address `i`.
pub open spec fn initial_board_byte(i: int) -> u8 {
    initial_cell((i - BOARD_BASE) / 8, (i - BOARD_BASE) % 8)
}

/// RAM `m` after the writes of board setup that precede its call of game init.
pub open spec fn board_setup_writes(m: Seq<u8>) -> Seq<u8> {
    Seq::new(
        m.len(),
        |i: int|
            if is_board_addr(i) {
                initial_board_byte(i)
            } else if i == DIFFICULTY_E4 || i == MOVE_STATE_F3 || i == MOVE_FLAGS_E7 {
                0
            } else if i == GAME_FLAGS_E2 || i == AI_STATE_F7 || i == MOVE_FLAGS_E5 {
                0xff
            } else if i == CURRENT_PLAYER_EE {
                FIRST_PLAYER
            } else if i == UNKNOWN_D4 || i == UNKNOWN_D5 || i == UNKNOWN_D8 {
                SHADOW_SEED
            } else {
                m[i]
            },
    )
}

/// RAM `m` after game init with argument `arg`: $D6 and $D7 take `arg`, the
/// real-time timer and $F5, $F6 are cleared, the move timer is set, and then
/// $D4-$D8 are copied to $D9-$DD.
pub open spec fn game_init_image(m: Seq<u8>, arg: u8) -> Seq<u8> {
    let w = m.update(UNKNOWN_D6 as int, arg).update(UNKNOWN_D7 as int, arg).update(
        TIMER_LOW_F1 as int,
        0,
    ).update(TIMER_HIGH_F0 as int, 0).update(MOVE_TIMER_F4 as int, MOVE_TIMER_INIT).update(
        UNKNOWN_F5 as int,
        0,
    ).update(UNKNOWN_F6 as int, 0);
    Seq::new(
        w.len(),
        |i: int|
            if UNKNOWN_D9 <= i < UNKNOWN_D9 + SHADOW_LEN {
                w[UNKNOWN_D4 + (i - UNKNOWN_D9)]
            } else {
                w[i]
            },
    )
}

/// RAM `m` after board setup.
pub open spec fn board_setup_image(m: Seq<u8>) -> Seq<u8> {
    game_init_image(board_setup_writes(m), 0)
}

/// The random seed derived from the real-time timer's high byte.
pub open spec fn seed_of(high: u8) -> u8 {
    (high ^ 0xff) | 0xf7
}

/// RAM `m` after one main-loop step.
pub open spec fn main_loop_image(m: Seq<u8>) -> Seq<u8> {
    let timer = ((m[GAME_TIMER_D3 as int] + 1) % 256) as u8;
    let low = if timer == 0 {
        ((m[TIMER_LOW_F1 as int] + 1) % 256) as u8
    } else {
        m[TIMER_LOW_F1 as int]
    };
    let high = if timer == 0 && low == 0 {
        0xffu8
    } else {
        m[TIMER_HIGH_F0 as int]
    };
    m.update(GAME_TIMER_D3 as int, timer).update(TIMER_LOW_F1 as int, low).update(
        TIMER_HIGH_F0 as int,
        high,
    ).update(RANDOM_SEED_E9 as int, seed_of(high))
}

/// RAM `m` after `n` main-loop steps.
pub open spec fn main_loop_steps(m: Seq<u8>, n: nat) -> Seq<u8>
    decreases n,
{
    if n == 0 {
        m
    } else {
        main_loop_image(main_loop_steps(m, (n - 1) as nat))
    }
}

/// Board setup on two all-zero RAM images gives the same image.
pub proof fn lemma_board_setup_deterministic(a: Seq<u8>, b: Seq<u8>)
    requires
        a.len() == RAM_SIZE,
        b.len() == RAM_SIZE,
        forall|i: int| 0 <= i < RAM_SIZE ==> a[i] == 0,
        forall|i: int| 0 <= i < RAM_SIZE ==> b[i] == 0,
    ensures
        board_setup_image(a) == board_setup_image(b),
{
    assert(a =~= b);
}

/// After board setup the top rank holds the back-rank template, the bottom
/// rank the same with the white bit, row 1 black pawns marked 0x46, row 6
/// white pawns marked 0x8E, and rows 2 to 5 are empty.
pub proof fn lemma_board_setup_layout(m: Seq<u8>)
    requires
        m.len() == RAM_SIZE,
    ensures
        forall|c: int|
            0 <= c < 8 ==> #[trigger] board_cell(board_setup_image(m), 0, c) == higher_rank_piece(
                c,
            ),
        forall|c: int|
            0 <= c < 8 ==> #[trigger] board_cell(board_setup_image(m), 7, c) == higher_rank_piece(
                c,
            ) | WHITE,
        forall|c: int| 0 <= c < 8 ==> #[trigger] board_cell(board_setup_image(m), 6, c) == 0x8e,
        forall|c: int| 0 <= c < 8 ==> #[trigger] board_cell(board_setup_image(m), 1, c) == 0x46,
        forall|r: int, c: int|
            2 <= r < 6 && 0 <= c < 8 ==> #[trigger] board_cell(board_setup_image(m), r, c) == 0,
{
    assert(PAWN | WHITE | EN_PASSANT_WHITE == 0x8e) by (bit_vector);
    assert(PAWN | EN_PASSANT_BLACK == 0x46) by (bit_vector);
}

/// After board setup, $D9-$DD hold a copy of $D4-$D8.
pub proof fn lemma_game_init_copy(m: Seq<u8>)
    requires
        m.len() == RAM_SIZE,
    ensures
        board_setup_image(m).subrange(UNKNOWN_D9 as int, UNKNOWN_D9 + SHADOW_LEN)
            == board_setup_image(m).subrange(UNKNOWN_D4 as int, UNKNOWN_D4 + SHADOW_LEN),
{
    let s = board_setup_image(m);
    assert(s.subrange(UNKNOWN_D9 as int, UNKNOWN_D9 + SHADOW_LEN) =~= s.subrange(
        UNKNOWN_D4 as int,
        UNKNOWN_D4 + SHADOW_LEN,
    ));
}

/// After `n` main-loop steps the game timer has advanced by `n` and the
/// real-time timer's low byte by the number of times the game timer wrapped,
/// both modulo 256.
pub proof fn lemma_main_loop_timers(m: Seq<u8>, n: nat)
    requires
        m.len() == RAM_SIZE,
    ensures
        main_loop_steps(m, n).len() == RAM_SIZE,
        main_loop_steps(m, n)[GAME_TIMER_D3 as int] == (m[GAME_TIMER_D3 as int] + n) % 256,
        main_loop_steps(m, n)[TIMER_LOW_F1 as int] == (m[TIMER_LOW_F1 as int] + (m[GAME_TIMER_D3 as int] + n) / 256) % 256,
    decreases n,
{
    if n > 0 {
        lemma_main_loop_timers(m, (n - 1) as nat);
        let d = m[GAME_TIMER_D3 as int] + n;
        let f = m[TIMER_LOW_F1 as int] as int;
        assert(((d - 1) % 256 + 1) % 256 == d % 256);
        if d % 256 == 0 {
            assert(d / 256 == (d - 1) / 256 + 1);
            assert(((f + (d - 1) / 256) % 256 + 1) % 256 == (f + d / 256) % 256);
        } else {
            assert(d / 256 == (d - 1) / 256);
        }
    }
}

/// From the state after board setup, 256 main-loop steps bring the game timer
/// back to its value and advance the real-time timer's low byte by one.
pub proof fn lemma_main_loop_tick_rate(m: Seq<u8>)
    requires
        m.len() == RAM_SIZE,
    ensures
        main_loop_steps(board_setup_image(m), 256)[GAME_TIMER_D3 as int] == board_setup_image(
            m,
        )[GAME_TIMER_D3 as int],
        main_loop_steps(board_setup_image(m), 256)[TIMER_LOW_F1 as int] == board_setup_image(
            m,
        )[TIMER_LOW_F1 as int] + 1,
{
    let s = board_setup_image(m);
    lemma_main_loop_timers(s, 256);
    assert((s[GAME_TIMER_D3 as int] + 256) / 256 == 1);
}

/// After any main-loop step the seed is derived from the timer's high byte,
/// and every bit of it but bit 3 is set.
pub proof fn lemma_seed_pattern(m: Seq<u8>)
    requires
        m.len() == RAM_SIZE,
    ensures
        main_loop_image(m)[RANDOM_SEED_E9 as int] == seed_of(
            main_loop_image(m)[TIMER_HIGH_F0 as int],
        ),
        main_loop_image(m)[RANDOM_SEED_E9 as int] & 0xf7 == 0xf7,
{
    let h = main_loop_image(m)[TIMER_HIGH_F0 as int];
    assert(((h ^ 0xff) | 0xf7) & 0xf7 == 0xf7) by (bit_vector);
}

/// Whether board cell `k` (0..64) has been written once columns below `col`
/// are done and, in column `col`, the back ranks, pawn ranks and middle rows
/// below `row` are done.
spec fn cell_done(k: int, col: int, row: int) -> bool {
    k % 8 < col || (k % 8 == col && (k / 8 < row || k / 8 >= 6))
}

/// Game state of Video Chess: the console's RAM image. Only $80-$FF exist on
/// the hardware; the lower half is kept but unused.
pub struct VideoChess {
    pub ram: [u8; 256],
}

impl VideoChess {
    /// A state whose RAM is all zero.
    pub fn new() -> (r: Self)
        ensures
            forall|i: int| 0 <= i < RAM_SIZE ==> r.ram@[i] == 0,
    {
        VideoChess { ram: [0u8; 256] }
    }

    /// Board setup: places the pieces, sets the game, move and AI cells to
    /// their starting values, then runs game init with argument 0. Cells it
    /// does not name keep their value.
    pub fn board_setup(&mut self)
        ensures
            final(self).ram@ == board_setup_image(old(self).ram@),
    {
        let ghost pre = self.ram@;
        self.ram[DIFFICULTY_E4] = 0;
        let ghost cleared = self.ram@;
        let template: [u8; 8] = [ROOK, KNIGHT, BISHOP, QUEEN, KING, BISHOP, KNIGHT, ROOK];
        let mut col: usize = 0;
        while col < 8
            invariant
                col <= 8,
                cleared.len() == RAM_SIZE,
                forall|c: int| 0 <= c < 8 ==> template@[c] == higher_rank_piece(c),
                forall|i: int|
                    0 <= i < RAM_SIZE ==> #[trigger] self.ram@[i] == if is_board_addr(i)
                        && (i - BOARD_BASE) % 8 < col {
                        initial_board_byte(i)
                    } else {
                        cleared[i]
                    },
            decreases 8 - col,
        {
            let piece = template[col];
            self.ram[BOARD_BASE + 0 * 8 + col] = piece;
            self.ram[BOARD_BASE + 7 * 8 + col] = piece | WHITE;
            self.ram[BOARD_BASE + 6 * 8 + col] = PAWN | WHITE | EN_PASSANT_WHITE;
            self.ram[BOARD_BASE + 1 * 8 + col] = PAWN | EN_PASSANT_BLACK;
            let mut row: usize = 2;
            while row < 6
                invariant
                    col < 8,
                    2 <= row <= 6,
                    cleared.len() == RAM_SIZE,
                    forall|c: int| 0 <= c < 8 ==> template@[c] == higher_rank_piece(c),
                    forall|i: int|
                        0 <= i < RAM_SIZE ==> #[trigger] self.ram@[i] == if is_board_addr(i)
                            && cell_done(i - BOARD_BASE, col as int, row as int) {
                            initial_board_byte(i)
                        } else {
                            cleared[i]
                        },
                decreases 6 - row,
            {
                self.ram[BOARD_BASE + row * 8 + col] = 0;
                row += 1;
            }
            col += 1;
        }
        self.ram[GAME_FLAGS_E2] = 0xff;
        self.ram[AI_STATE_F7] = 0xff;
        self.ram[MOVE_FLAGS_E5] = 0xff;
        self.ram[MOVE_STATE_F3] = 0;
        self.ram[MOVE_FLAGS_E7] = 0;
        self.ram[CURRENT_PLAYER_EE] = FIRST_PLAYER;
        self.ram[UNKNOWN_D5] = SHADOW_SEED;
        self.ram[UNKNOWN_D4] = SHADOW_SEED;
        self.ram[UNKNOWN_D8] = SHADOW_SEED;
        assert(self.ram@ =~= board_setup_writes(pre));
        self.game_init(0);
    }

    /// Game init: stores `arg` in $D6 and $D7, clears the real-time timer and
    /// $F5, $F6, sets the move timer to 32, then copies $D4-$D8 to $D9-$DD.
    pub fn game_init(&mut self, arg: u8)
        ensures
            final(self).ram@ == game_init_image(old(self).ram@, arg),
    {
        self.ram[UNKNOWN_D6] = arg;
        self.ram[UNKNOWN_D7] = arg;
        self.ram[TIMER_LOW_F1] = 0;
        self.ram[TIMER_HIGH_F0] = 0;
        self.ram[MOVE_TIMER_F4] = MOVE_TIMER_INIT;
        self.ram[UNKNOWN_F5] = 0;
        self.ram[UNKNOWN_F6] = 0;
        let ghost w = self.ram@;
        let mut i: usize = 0;
        while i < SHADOW_LEN
            invariant
                i <= SHADOW_LEN,
                w.len() == RAM_SIZE,
                forall|j: int|
                    0 <= j < RAM_SIZE ==> #[trigger] self.ram@[j] == if UNKNOWN_D9 <= j
                        < UNKNOWN_D9 + i {
                        w[UNKNOWN_D4 + (j - UNKNOWN_D9)]
                    } else {
                        w[j]
                    },
            decreases SHADOW_LEN - i,
        {
            self.ram[UNKNOWN_D9 + i] = self.ram[UNKNOWN_D4 + i];
            i += 1;
        }
        assert(self.ram@ =~= game_init_image(old(self).ram@, arg));
    }

    /// One main-loop step: advances the game timer, carries into the
    /// real-time timer when it wraps, and refreshes the random seed.
    pub fn main_loop(&mut self)
        ensures
            final(self).ram@ == main_loop_image(old(self).ram@),
            final(self).ram@[RANDOM_SEED_E9 as int] == seed_of(
                final(self).ram@[TIMER_HIGH_F0 as int],
            ),
    {
        self.ram[GAME_TIMER_D3] = self.ram[GAME_TIMER_D3].wrapping_add(1);
        if self.ram[GAME_TIMER_D3] == 0 {
            self.ram[TIMER_LOW_F1] = self.ram[TIMER_LOW_F1].wrapping_add(1);
            if self.ram[TIMER_LOW_F1] == 0 {
                self.ram[TIMER_HIGH_F0] = 0xff;
            }
        }
        let a = self.ram[TIMER_HIGH_F0] ^ 0xff;
        let a = a | 0xf7;
        self.ram[RANDOM_SEED_E9] = a;
        assert(self.ram@ =~= main_loop_image(old(self).ram@));
    }
}

} // verus!
