//! One display frame: the player's input, a fixed batch of steps, then one
//! tick of each timer.

use vstd::prelude::*;

use crate::fault::Fault;
use crate::input::{action_wf, Action};
use crate::machine::Chip8;
use crate::model::State;

verus! {

/// Number of instructions carried out per display frame.
pub const STEPS_PER_FRAME: usize = 8;

/// What a batch of steps did, as a mathematical value.
pub struct Batch {
    /// The state the batch left.
    pub state: State,
    /// The unknown words met, in the order met.
    pub unknown: Seq<u16>,
    /// The fault that ended the batch early, if one did.
    pub halted: Option<Fault>,
}

/// What one frame tells the driver, as a mathematical value.
pub struct FrameView {
    /// The player asked to stop; nothing was run.
    pub quit: bool,
    /// The unknown words met, in the order met.
    pub unknown: Seq<u16>,
    /// The fault that stopped the machine, if one did.
    pub halted: Option<Fault>,
    /// Whether the tone should be heard until the next frame.
    pub sound: bool,
}

/// What one frame tells the driver.
pub struct Frame {
    /// The player asked to stop; nothing was run.
    pub quit: bool,
    /// The unknown words met, in the order met, for the driver to log.
    pub unknown: Vec<u16>,
    /// The fault that stopped the machine, if one did.
    pub halted: Option<Fault>,
    /// Whether the tone should be heard until the next frame.
    pub sound: bool,
}

impl View for Frame {
    type V = FrameView;

    open spec fn view(&self) -> FrameView {
        FrameView {
            quit: self.quit,
            unknown: self.unknown@,
            halted: self.halted,
            sound: self.sound,
        }
    }
}

impl State {
    /// What a batch of steps does, one step for each byte of `randoms`, the
    /// step receiving that byte. An unknown word is noted and passed over;
    /// any other fault ends the batch, and the steps left are not taken.
    pub open spec fn run(self, randoms: Seq<u8>) -> Batch
        decreases randoms.len(),
    {
        if randoms.len() == 0 {
            Batch { state: self, unknown: Seq::empty(), halted: None }
        } else {
            let before = self.run(randoms.drop_last());
            if before.halted is Some {
                before
            } else {
                let state = before.state.step(randoms.last());
                match before.state.step_fault() {
                    None => Batch { state, ..before },
                    Some(Fault::UnknownOpcode(opcode)) => Batch {
                        state,
                        unknown: before.unknown.push(opcode),
                        ..before
                    },
                    Some(fault) => Batch { state, halted: Some(fault), ..before },
                }
            }
        }
    }

    /// This state with the player's key press or release taken in.
    pub open spec fn after_input(self, input: Option<Action>) -> State {
        match input {
            Some(Action::Press(key)) => self.with_key(key, true),
            Some(Action::Release(key)) => self.with_key(key, false),
            _ => self,
        }
    }

    /// What one frame does. A request to quit stops before anything runs.
    /// Otherwise the key event is taken in and the batch of steps runs; if no
    /// fault ended it, each timer ticks once, and the tone is to be heard
    /// while the sound timer has not run out.
    pub open spec fn frame(self, input: Option<Action>, randoms: Seq<u8>) -> (State, FrameView) {
        if input == Some(Action::Quit) {
            (self, FrameView { quit: true, unknown: Seq::empty(), halted: None, sound: false })
        } else {
            let batch = self.after_input(input).run(randoms);
            if batch.halted is Some {
                (
                    batch.state,
                    FrameView {
                        quit: false,
                        unknown: batch.unknown,
                        halted: batch.halted,
                        sound: false,
                    },
                )
            } else {
                let state = batch.state.tick_delay().tick_sound();
                (
                    state,
                    FrameView {
                        quit: false,
                        unknown: batch.unknown,
                        halted: None,
                        sound: state.sound_timer > 0,
                    },
                )
            }
        }
    }
}

/// Once a batch has been ended by a fault, further steps change nothing.
pub proof fn lemma_halted_batch_stays(s: State, randoms: Seq<u8>, more: Seq<u8>)
    requires
        s.run(randoms).halted is Some,
    ensures
        s.run(randoms + more) == s.run(randoms),
    decreases more.len(),
{
    if more.len() == 0 {
        assert(randoms + more =~= randoms);
    } else {
        lemma_halted_batch_stays(s, randoms, more.drop_last());
        assert((randoms + more).drop_last() =~= randoms + more.drop_last());
    }
}

impl Chip8 {
    /// Takes `count` steps, noting unknown words and passing over them, and
    /// stops early at any other fault.
    pub fn run_steps(&mut self, count: usize) -> (report: (Vec<u16>, Option<Fault>))
        ensures
            exists|randoms: Seq<u8>|
                randoms.len() == count && #[trigger] old(self)@.run(randoms) == (Batch {
                    state: final(self)@,
                    unknown: report.0@,
                    halted: report.1,
                }),
    {
        let mut unknown: Vec<u16> = Vec::new();
        let ghost mut randoms: Seq<u8> = Seq::empty();
        let mut taken: usize = 0;
        while taken < count
            invariant
                taken <= count,
                randoms.len() == taken,
                old(self)@.run(randoms) == (Batch {
                    state: self@,
                    unknown: unknown@,
                    halted: None,
                }),
            decreases count - taken,
        {
            let ghost before = self@;
            let ghost noted = unknown@;
            let res = self.step();
            proof {
                let random = choose|random: u8| self@ == #[trigger] before.step(random);
                let earlier = randoms;
                randoms = earlier.push(random);
                assert(randoms.drop_last() =~= earlier);
            }
            match res {
                Ok(()) => {},
                Err(Fault::UnknownOpcode(opcode)) => {
                    unknown.push(opcode);
                },
                Err(fault) => {
                    proof {
                        let rest = Seq::new((count - taken - 1) as nat, |i: int| 0u8);
                        lemma_halted_batch_stays(old(self)@, randoms, rest);
                        assert((randoms + rest).len() == count);
                    }
                    return (unknown, Some(fault));
                },
            }
            taken += 1;
        }
        (unknown, None)
    }

    /// Runs one display frame on the player's input of this frame, if there
    /// was one.
    pub fn run_frame(&mut self, input: Option<Action>) -> (frame: Frame)
        requires
            input matches Some(action) ==> action_wf(action),
        ensures
            exists|randoms: Seq<u8>|
                randoms.len() == STEPS_PER_FRAME && #[trigger] old(self)@.frame(input, randoms) == (
                    final(self)@,
                    frame@,
                ),
    {
        match input {
            Some(Action::Quit) => {
                let frame = Frame { quit: true, unknown: Vec::new(), halted: None, sound: false };
                proof {
                    let randoms = Seq::new(STEPS_PER_FRAME as nat, |i: int| 0u8);
                    assert(old(self)@.frame(input, randoms) == (self@, frame@));
                }
                return frame;
            },
            Some(Action::Press(key)) => {
                self.key_press(key);
            },
            Some(Action::Release(key)) => {
                self.key_release(key);
            },
            None => {},
        }
        let ghost ready = self@;
        let (unknown, halted) = self.run_steps(STEPS_PER_FRAME);
        let ghost randoms = choose|randoms: Seq<u8>|
            randoms.len() == STEPS_PER_FRAME && #[trigger] ready.run(randoms) == (Batch {
                state: self@,
                unknown: unknown@,
                halted,
            });
        if halted.is_some() {
            let frame = Frame { quit: false, unknown, halted, sound: false };
            assert(old(self)@.frame(input, randoms) == (self@, frame@));
            return frame;
        }
        self.decrease_delay_timer();
        self.decrease_sound_timer();
        let sound: bool = self.is_sound_active();
        let frame = Frame { quit: false, unknown, halted: None, sound };
        assert(old(self)@.frame(input, randoms) == (self@, frame@));
        frame
    }
}

} // verus!
