use crate::fault::Fault;
use crate::machine::{
    family, field_kk, field_x, is_first_pressed, lemma_first_pressed, no_key_pressed, Machine,
};
use vstd::prelude::*;

verus! {

/// The machine after the ticks `inputs`, each a key snapshot with the byte
/// drawn on that tick, taken in order up to the first fault.
pub open spec fn run(m: Machine, inputs: Seq<(Seq<bool>, u8)>) -> (Machine, Result<(), Fault>)
    decreases inputs.len(),
{
    if inputs.len() == 0 {
        (m, Ok(()))
    } else {
        let (before, result) = run(m, inputs.drop_last());
        match result {
            Ok(_) => before.tick(inputs.last().0, inputs.last().1),
            Err(fault) => (before, Err(fault)),
        }
    }
}

/// Only `Cxkk` looks at the byte drawn: every other instruction has one
/// outcome whatever the byte.
pub proof fn lemma_entropy_only_for_random(m: Machine, first: u8, second: u8)
    requires
        family(m.opcode) != 0xC,
    ensures
        m.execute(first) == m.execute(second),
        m.process(first) == m.process(second),
{
}

/// A word of family `0` other than `00E0` and `00EE` is no instruction: a
/// step over it reports the word and its address, and changes nothing but
/// the fetched word held in `opcode`.
pub proof fn lemma_undefined_system_word(m: Machine, entropy: u8)
    requires
        m.fetch_fault() is None,
        family(m.word_at_program_counter()) == 0,
        m.word_at_program_counter() != 0x00E0,
        m.word_at_program_counter() != 0x00EE,
    ensures
        m.step(entropy) == (
            Machine { opcode: m.word_at_program_counter(), ..m },
            Err::<(), Fault>(
                Fault::UnknownInstruction {
                    opcode: m.word_at_program_counter(),
                    address: m.program_counter,
                },
            ),
        ),
{
}

/// A register that has been loaded with `kk` holds `kk`, for every register
/// and every `kk`.
pub proof fn lemma_load_then_read(m: Machine)
    requires
        m.wf(),
    ensures
        m.load_immediate().0.registers[field_x(m.opcode)] == field_kk(m.opcode),
        m.load_immediate().0.vx() == field_kk(m.opcode),
{
}

/// After the screen has been cleared every pixel is dark and a redraw is
/// due.
pub proof fn lemma_clear_screen_dark(m: Machine, r: int, c: int)
    requires
        0 <= r < 32,
        0 <= c < 64,
    ensures
        !m.clear_screen().0.display[r][c],
        m.clear_screen().0.redraw_pending,
{
}

/// Drawing a sprite twice at the same place gives back the display as it
/// was. The second draw leaves 1 in `VF` exactly when the first lit a pixel,
/// that is, when the sprite has a set pixel over a pixel that was dark; a
/// sprite without set pixels, or one that only erased, leaves 0.
pub proof fn lemma_draw_twice_restores(m: Machine)
    requires
        m.wf(),
        m.draw().1 is Ok,
        m.draw().0.vx() == m.vx(),
        m.draw().0.vy() == m.vy(),
    ensures
        m.draw().0.draw().1 is Ok,
        m.draw().0.draw().0.display == m.display,
        m.draw().0.draw().0.registers[15] == 1 <==> exists|r: int, c: int|
            0 <= r < 32 && 0 <= c < 64 && !m.display[r][c] && #[trigger] m.sprite_covers(r, c),
        m.draw().0.draw().0.registers[15] == 0 || m.draw().0.draw().0.registers[15] == 1,
{
    let once = m.draw().0;
    let twice = once.draw().0;
    assert forall|r: int, c: int| once.sprite_covers(r, c) == m.sprite_covers(r, c) by {}
    assert(twice.display =~~= m.display);
    if once.sprite_collides() {
        let (r, c) = choose|r: int, c: int|
            0 <= r < 32 && 0 <= c < 64 && once.display[r][c] && #[trigger] once.sprite_covers(
                r,
                c,
            );
        assert(!m.display[r][c] && m.sprite_covers(r, c));
    }
    if exists|r: int, c: int|
        0 <= r < 32 && 0 <= c < 64 && !m.display[r][c] && #[trigger] m.sprite_covers(r, c) {
        let (r, c) = choose|r: int, c: int|
            0 <= r < 32 && 0 <= c < 64 && !m.display[r][c] && #[trigger] m.sprite_covers(r, c);
        assert(once.display[r][c] && once.sprite_covers(r, c));
    }
}

/// With `Vx` equal to `kk`, a step over skip-if-equal moves the program
/// counter on by 4, and a step over skip-if-not-equal moves it on by 2.
pub proof fn lemma_skip_on_equal(m: Machine, entropy: u8)
    requires
        m.wf(),
        m.fetch_fault() is None,
        family(m.word_at_program_counter()) == 3 || family(m.word_at_program_counter()) == 4,
        m.registers[field_x(m.word_at_program_counter())] == field_kk(
            m.word_at_program_counter(),
        ),
    ensures
        m.step(entropy).1 is Ok,
        family(m.word_at_program_counter()) == 3 ==> m.step(entropy).0.program_counter
            == m.program_counter + 4,
        family(m.word_at_program_counter()) == 4 ==> m.step(entropy).0.program_counter
            == m.program_counter + 2,
{
}

/// A jump sets the program counter to its target: the step adds nothing
/// to it.
pub proof fn lemma_jump_overrides(m: Machine, entropy: u8)
    requires
        m.wf(),
        m.fetch_fault() is None,
        family(m.word_at_program_counter()) == 1,
    ensures
        m.step(entropy).1 is Ok,
        m.step(entropy).0.program_counter == m.word_at_program_counter() % 4096,
{
}

/// While a machine awaits a key, a tick on which no key is down executes
/// nothing: it takes the keys, clears the redraw flag and leaves everything
/// else as it was, the wait included.
pub proof fn lemma_wait_holds(m: Machine, keys: Seq<bool>, entropy: u8)
    requires
        m.awaiting_key,
        no_key_pressed(keys),
    ensures
        m.tick(keys, entropy) == (
            Machine { redraw_pending: false, input_state: keys, ..m },
            Ok::<(), Fault>(()),
        ),
{
}

/// However many ticks pass on which no key is down, a machine that awaits
/// a key goes on waiting, and its registers, memory and timers, as well as
/// its program counter, index, stack and display, stay as they were.
pub proof fn lemma_wait_holds_throughout(m: Machine, inputs: Seq<(Seq<bool>, u8)>)
    requires
        m.awaiting_key,
        forall|t: int| 0 <= t < inputs.len() ==> no_key_pressed(#[trigger] inputs[t].0),
    ensures
        run(m, inputs).1 is Ok,
        run(m, inputs).0.awaiting_key,
        run(m, inputs).0.registers == m.registers,
        run(m, inputs).0.memory == m.memory,
        run(m, inputs).0.delay_timer == m.delay_timer,
        run(m, inputs).0.sound_timer == m.sound_timer,
        run(m, inputs).0.program_counter == m.program_counter,
        run(m, inputs).0.index == m.index,
        run(m, inputs).0.stack == m.stack,
        run(m, inputs).0.stack_pointer == m.stack_pointer,
        run(m, inputs).0.display == m.display,
        run(m, inputs).0.key_target == m.key_target,
        run(m, inputs).0.opcode == m.opcode,
    decreases inputs.len(),
{
    if inputs.len() > 0 {
        lemma_wait_holds_throughout(m, inputs.drop_last());
        let before = run(m, inputs.drop_last()).0;
        assert(no_key_pressed(inputs[inputs.len() - 1].0));
        lemma_wait_holds(before, inputs.last().0, inputs.last().1);
    }
}

/// The tick on which a waiting machine first finds a key down writes the
/// index of the lowest such key to the awaited register, moves no timer and
/// executes nothing, and ends the wait: the tick after it performs a step.
pub proof fn lemma_wait_ends(
    m: Machine,
    keys: Seq<bool>,
    k: int,
    entropy: u8,
    next_keys: Seq<bool>,
    next_entropy: u8,
)
    requires
        m.wf(),
        m.awaiting_key,
        keys.len() == 16,
        is_first_pressed(keys, k),
    ensures
        m.tick(keys, entropy) == (
            Machine {
                redraw_pending: false,
                input_state: keys,
                awaiting_key: false,
                registers: m.registers.update(m.key_target as int, k as u8),
                ..m
            },
            Ok::<(), Fault>(()),
        ),
        m.tick(keys, entropy).0.registers[m.key_target as int] == k,
        ({
            let resumed = m.tick(keys, entropy).0;
            let taken = Machine { redraw_pending: false, input_state: next_keys, ..resumed };
            resumed.tick(next_keys, next_entropy) == match taken.step(next_entropy).1 {
                Ok(_) => (taken.step(next_entropy).0.count_down(), Ok::<(), Fault>(())),
                Err(fault) => (taken.step(next_entropy).0, Err::<(), Fault>(fault)),
            }
        }),
{
    lemma_first_pressed(keys, k);
}

/// A step keeps a well-formed machine well-formed, whatever the program.
pub proof fn lemma_step_keeps_shape(m: Machine, entropy: u8)
    requires
        m.wf(),
    ensures
        m.step(entropy).0.wf(),
{
    let fetched = Machine { opcode: m.word_at_program_counter(), ..m };
    assert(fetched.execute(entropy).0.wf());
}

/// A tick keeps a well-formed machine well-formed, whatever the keys.
pub proof fn lemma_tick_keeps_shape(m: Machine, keys: Seq<bool>, entropy: u8)
    requires
        m.wf(),
        keys.len() == 16,
    ensures
        m.tick(keys, entropy).0.wf(),
{
    let taken = Machine { redraw_pending: false, input_state: keys, ..m };
    lemma_step_keeps_shape(taken, entropy);
}

} // verus!
