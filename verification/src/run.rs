//! The decisions of the run loop. The loop itself waits between its turns
//! and never ends by itself, so it belongs to the program around the
//! library; what it does with each key it finds is decided here.

use crate::codec::apple1_char;
use vstd::prelude::*;

verus! {

/// The byte that ends a run when it comes from the keyboard: control-C.
pub const STOP_KEY: u8 = 0x03;

/// What the run loop found when it looked for a key.
#[derive(Clone, Copy, Debug, PartialEq, Eq, Structural)]
pub enum Input {
    /// No key was waiting.
    Empty,
    /// This byte was waiting.
    Byte(u8),
    /// The keyboard is gone: no key will come any more.
    Disconnected,
}

/// What the run loop does after one turn.
#[derive(Clone, Copy, Debug, PartialEq, Eq, Structural)]
pub enum Turn {
    /// Go on with the next turn.
    Continue,
    /// End the run: the stop key was pressed.
    Stop,
    /// End the run as failed: the machine cannot go on without a keyboard.
    Abort,
}

/// What the run loop does on `input`.
pub open spec fn turn_on(input: Input) -> Turn {
    match input {
        Input::Empty => Turn::Continue,
        Input::Byte(key) => if key == STOP_KEY {
            Turn::Stop
        } else {
            Turn::Continue
        },
        Input::Disconnected => Turn::Abort,
    }
}

/// The code that `input` puts into the keyboard register, if it puts one.
pub open spec fn typed(input: Input) -> Option<u8> {
    match input {
        Input::Byte(key) => if key == STOP_KEY {
            None
        } else {
            Some(apple1_char(key))
        },
        _ => None,
    }
}

/// The codes that a run writes to the keyboard register, in the order in
/// which it writes them, where `inputs` is what its turns found, one after
/// the other. The run ends with the first turn that does not say
/// `Continue`.
pub open spec fn delivered(inputs: Seq<Input>) -> Seq<u8>
    decreases inputs.len(),
{
    if inputs.len() == 0 {
        Seq::empty()
    } else if turn_on(inputs[0]) != Turn::Continue {
        Seq::empty()
    } else {
        match typed(inputs[0]) {
            Some(code) => seq![code] + delivered(inputs.drop_first()),
            None => delivered(inputs.drop_first()),
        }
    }
}

/// Whether `input` is a key.
pub open spec fn is_key(input: Input) -> bool {
    input is Byte
}

/// The code the machine reads for the key in `input`.
pub open spec fn code_of(input: Input) -> u8 {
    apple1_char(input->Byte_0)
}

/// The keys among `inputs`, each as the code the machine reads, in the
/// order in which they came.
pub open spec fn keys_sent(inputs: Seq<Input>) -> Seq<u8> {
    inputs.filter(|input: Input| is_key(input)).map_values(|input: Input| code_of(input))
}

/// Keys reach the machine in the order in which they were pressed, each one
/// once: while no turn ends the run, the codes written to the keyboard
/// register are the keys that were found, in the same order.
pub proof fn lemma_keys_arrive_in_order(inputs: Seq<Input>)
    requires
        forall|i: int| 0 <= i < inputs.len() ==> turn_on(#[trigger] inputs[i]) == Turn::Continue,
    ensures
        delivered(inputs) == keys_sent(inputs),
        delivered(inputs).len() == inputs.filter(|input: Input| is_key(input)).len(),
    decreases inputs.len(),
{
    let key = |input: Input| is_key(input);
    let code = |input: Input| code_of(input);
    if inputs.len() == 0 {
        assert(inputs.filter(key) =~= Seq::<Input>::empty()) by {
            reveal(Seq::filter);
        }
        assert(keys_sent(inputs) =~= Seq::<u8>::empty());
    } else {
        let first = seq![inputs[0]];
        let rest = inputs.drop_first();
        lemma_keys_arrive_in_order(rest);
        assert(inputs =~= first + rest);
        Seq::filter_distributes_over_add(first, rest, key);
        assert(first.filter(key) =~= if is_key(inputs[0]) {
            first
        } else {
            Seq::<Input>::empty()
        }) by {
            reveal_with_fuel(Seq::filter, 2);
            assert(first.drop_last() =~= Seq::<Input>::empty());
        }
        if is_key(inputs[0]) {
            assert(inputs.filter(key) == first + rest.filter(key));
            assert(keys_sent(inputs) =~= seq![code_of(inputs[0])] + keys_sent(rest));
        } else {
            assert(inputs.filter(key) =~= rest.filter(key));
        }
    }
}

/// Once a turn has ended the run, nothing that comes after it reaches the
/// machine.
pub proof fn lemma_nothing_after_the_end(before: Seq<Input>, end: Input, after: Seq<Input>)
    requires
        turn_on(end) != Turn::Continue,
    ensures
        delivered(before + seq![end] + after) == delivered(before),
    decreases before.len(),
{
    let all = before + seq![end] + after;
    if before.len() == 0 {
        assert(all[0] == end);
    } else {
        assert(all[0] == before[0]);
        assert(all.drop_first() =~= before.drop_first() + seq![end] + after);
        lemma_nothing_after_the_end(before.drop_first(), end, after);
    }
}

} // verus!
