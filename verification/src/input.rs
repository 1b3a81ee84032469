//! Keyboard input: which keys are currently held down.
use vstd::prelude::*;

verus! {

/// A key, by its virtual key code.
#[derive(Clone, Copy, Debug, PartialEq, Eq, Structural)]
pub struct KeyCode {
    pub code: u32,
}

/// Whether a key went down or up
#[derive(Clone, Copy, Debug, PartialEq, Eq, Structural)]
pub enum KeyState {
    Pressed,
    Released,
}

/// A keyboard event: the physical key, its new state, and its virtual key
/// code where the platform gives one.
#[derive(Clone, Copy, Debug, PartialEq, Eq, Structural)]
pub struct KeyboardInput {
    pub scancode: u32,
    pub state: KeyState,
    pub keycode: Option<KeyCode>,
}

/// Whether some input of the list has the scancode.
pub open spec fn has_scancode(inputs: Seq<KeyboardInput>, scancode: u32) -> bool {
    exists|i: int| 0 <= i < inputs.len() && (#[trigger] inputs[i]).scancode == scancode
}

/// The position of the input with the scancode, in a list where scancodes are distinct.
pub open spec fn scancode_position(inputs: Seq<KeyboardInput>, scancode: u32) -> int {
    choose|i: int| 0 <= i < inputs.len() && (#[trigger] inputs[i]).scancode == scancode
}

/// The held keys after processing an event: an event for a key already
/// listed removes it where the key was released and otherwise changes
/// nothing; a press of a key not listed is added at the end, and a release
/// of a key not listed changes nothing.
pub open spec fn after_input(inputs: Seq<KeyboardInput>, input: KeyboardInput) -> Seq<KeyboardInput> {
    if has_scancode(inputs, input.scancode) {
        if input.state == KeyState::Released {
            inputs.remove(scancode_position(inputs, input.scancode))
        } else {
            inputs
        }
    } else if input.state == KeyState::Released {
        inputs
    } else {
        inputs.push(input)
    }
}

/// Whether the key with the key code is held: some listed input with the
/// key code is not a release.
pub open spec fn key_pressed(inputs: Seq<KeyboardInput>, keycode: KeyCode) -> bool {
    exists|i: int| 0 <= i < inputs.len() && (#[trigger] inputs[i]).state != KeyState::Released
        && inputs[i].keycode == Some(keycode)
}

/// Manages incoming inputs: the keyboard inputs of keys currently listed, at
/// most one per physical key.
#[derive(Debug)]
pub struct InputHandler {
    pub keyboard_inputs: Vec<KeyboardInput>,
}

impl InputHandler {
    /// Well-formed: no two listed inputs have the same scancode.
    pub open spec fn wf(&self) -> bool {
        forall|i: int, j: int| 0 <= i < j < self.keyboard_inputs.len() ==>
            (#[trigger] self.keyboard_inputs@[i]).scancode != (#[trigger] self.keyboard_inputs@[j]).scancode
    }

    /// Creates a new [`InputHandler`] with no keys listed
    pub fn new() -> (h: InputHandler)
        ensures
            h.wf(),
            h.keyboard_inputs@ == Seq::<KeyboardInput>::empty(),
    {
        InputHandler { keyboard_inputs: Vec::new() }
    }

    /// Whether no two listed inputs have the same scancode, as processing
    /// inputs keeps it.
    pub fn keys_distinct(&self) -> (r: bool)
        ensures
            r == self.wf(),
    {
        let n = self.keyboard_inputs.len();
        let mut i: usize = 0;
        while i < n
            invariant
                n == self.keyboard_inputs.len(),
                i <= n,
                forall|a: int, b: int| 0 <= a < i && a < b < n ==>
                    (#[trigger] self.keyboard_inputs@[a]).scancode != (#[trigger] self.keyboard_inputs@[b]).scancode,
            decreases n - i,
        {
            let mut j: usize = i + 1;
            while j < n
                invariant
                    n == self.keyboard_inputs.len(),
                    i < n,
                    i + 1 <= j <= n,
                    forall|a: int, b: int| 0 <= a < i && a < b < n ==>
                        (#[trigger] self.keyboard_inputs@[a]).scancode != (#[trigger] self.keyboard_inputs@[b]).scancode,
                    forall|b: int| i < b < j ==> self.keyboard_inputs@[i as int].scancode != (#[trigger] self.keyboard_inputs@[b]).scancode,
                decreases n - j,
            {
                if self.keyboard_inputs[i].scancode == self.keyboard_inputs[j].scancode {
                    return false;
                }
                j = j + 1;
            }
            i = i + 1;
        }
        true
    }

    /// Processes a keyboard input: a release of a listed key removes it, any
    /// other event for a listed key changes nothing, a press of a key not
    /// listed is added, and a release of a key not listed changes nothing.
    pub fn process_keyboard_input(&mut self, input: KeyboardInput)
        requires
            old(self).wf(),
        ensures
            final(self).wf(),
            final(self).keyboard_inputs@ == after_input(old(self).keyboard_inputs@, input),
    {
        let mut index: usize = 0;
        while index < self.keyboard_inputs.len()
            invariant
                index <= self.keyboard_inputs.len(),
                self.keyboard_inputs@ == old(self).keyboard_inputs@,
                self.wf(),
                forall|k: int| 0 <= k < index ==> (#[trigger] self.keyboard_inputs@[k]).scancode != input.scancode,
            decreases self.keyboard_inputs.len() - index,
        {
            if self.keyboard_inputs[index].scancode == input.scancode {
                proof {
                    let p = scancode_position(old(self).keyboard_inputs@, input.scancode);
                    assert(has_scancode(old(self).keyboard_inputs@, input.scancode));
                    if p != index as int {
                        if p < index {
                        } else {
                            assert(self.keyboard_inputs@[index as int].scancode != self.keyboard_inputs@[p].scancode);
                        }
                    }
                }
                if input.state == KeyState::Released {
                    let ghost before = self.keyboard_inputs@;
                    self.keyboard_inputs.remove(index);
                    proof {
                        assert forall|i: int, j: int| 0 <= i < j < self.keyboard_inputs.len() implies
                            (#[trigger] self.keyboard_inputs@[i]).scancode != (#[trigger] self.keyboard_inputs@[j]).scancode by {
                            let i2 = if i < index { i } else { i + 1 };
                            let j2 = if j < index { j } else { j + 1 };
                            assert(self.keyboard_inputs@[i] == before[i2]);
                            assert(self.keyboard_inputs@[j] == before[j2]);
                        }
                    }
                }
                return;
            }
            index = index + 1;
        }
        if input.state == KeyState::Released {
            return;
        }
        let ghost before = self.keyboard_inputs@;
        self.keyboard_inputs.push(input);
        proof {
            assert(!has_scancode(before, input.scancode));
            assert forall|i: int, j: int| 0 <= i < j < self.keyboard_inputs.len() implies
                (#[trigger] self.keyboard_inputs@[i]).scancode != (#[trigger] self.keyboard_inputs@[j]).scancode by {
                if j == before.len() {
                    assert(self.keyboard_inputs@[i] == before[i]);
                }
            }
        }
    }

    /// Checks whether a key with the given key code is currently in the
    /// pressed state
    pub fn is_key_pressed(&self, keycode: KeyCode) -> (r: bool)
        ensures
            r == key_pressed(self.keyboard_inputs@, keycode),
    {
        let mut i: usize = 0;
        while i < self.keyboard_inputs.len()
            invariant
                i <= self.keyboard_inputs.len(),
                forall|k: int| 0 <= k < i ==> !((#[trigger] self.keyboard_inputs@[k]).state != KeyState::Released
                    && self.keyboard_inputs@[k].keycode == Some(keycode)),
            decreases self.keyboard_inputs.len() - i,
        {
            let input = self.keyboard_inputs[i];
            if input.state == KeyState::Released {
                i = i + 1;
                continue;
            }
            match input.keycode {
                Some(kb_input_keycode) => {
                    if kb_input_keycode == keycode {
                        return true;
                    }
                },
                None => {},
            }
            i = i + 1;
        }
        false
    }
}

/// A key pressed and not yet released is held: after a press event for a
/// key not listed, the key is pressed.
pub proof fn lemma_press_then_pressed(inputs: Seq<KeyboardInput>, scancode: u32, keycode: KeyCode)
    requires
        !has_scancode(inputs, scancode),
    ensures
        key_pressed(after_input(inputs, KeyboardInput { scancode, state: KeyState::Pressed, keycode: Some(keycode) }), keycode),
{
    let input = KeyboardInput { scancode, state: KeyState::Pressed, keycode: Some(keycode) };
    let after = after_input(inputs, input);
    assert(after == inputs.push(input));
    assert(after[inputs.len() as int] == input);
}

/// A release of a key that is not held changes nothing, so a press that
/// follows it leaves the key pressed.
pub proof fn lemma_release_then_press_pressed(inputs: Seq<KeyboardInput>, scancode: u32, keycode: KeyCode)
    requires
        !has_scancode(inputs, scancode),
    ensures
        after_input(inputs, KeyboardInput { scancode, state: KeyState::Released, keycode: Some(keycode) }) == inputs,
        key_pressed(
            after_input(
                after_input(inputs, KeyboardInput { scancode, state: KeyState::Released, keycode: Some(keycode) }),
                KeyboardInput { scancode, state: KeyState::Pressed, keycode: Some(keycode) },
            ),
            keycode,
        ),
{
    lemma_press_then_pressed(inputs, scancode, keycode);
}

/// Releasing a held key that no other listed key shares the key code with
/// leaves it no longer pressed.
pub proof fn lemma_release_then_not_pressed(inputs: Seq<KeyboardInput>, scancode: u32, keycode: KeyCode)
    requires
        forall|i: int, j: int| 0 <= i < j < inputs.len() ==> (#[trigger] inputs[i]).scancode != (#[trigger] inputs[j]).scancode,
        has_scancode(inputs, scancode),
        forall|i: int| 0 <= i < inputs.len() && (#[trigger] inputs[i]).keycode == Some(keycode) ==> inputs[i].scancode == scancode,
    ensures
        !key_pressed(after_input(inputs, KeyboardInput { scancode, state: KeyState::Released, keycode: Some(keycode) }), keycode),
{
    let input = KeyboardInput { scancode, state: KeyState::Released, keycode: Some(keycode) };
    let p = scancode_position(inputs, scancode);
    let after = after_input(inputs, input);
    assert(after == inputs.remove(p));
    assert forall|i: int| 0 <= i < after.len() implies !((#[trigger] after[i]).state != KeyState::Released
        && after[i].keycode == Some(keycode)) by {
        let i2 = if i < p { i } else { i + 1 };
        assert(after[i] == inputs[i2]);
        if inputs[i2].keycode == Some(keycode) {
            assert(inputs[i2].scancode == scancode);
            assert(i2 != p);
        }
    }
}

/// Processing keeps the scancodes of the held keys distinct.
pub proof fn lemma_input_keeps_distinct(inputs: Seq<KeyboardInput>, input: KeyboardInput)
    requires
        forall|i: int, j: int| 0 <= i < j < inputs.len() ==> (#[trigger] inputs[i]).scancode != (#[trigger] inputs[j]).scancode,
    ensures
        forall|i: int, j: int| 0 <= i < j < after_input(inputs, input).len() ==>
            (#[trigger] after_input(inputs, input)[i]).scancode != (#[trigger] after_input(inputs, input)[j]).scancode,
{
    let after = after_input(inputs, input);
    if has_scancode(inputs, input.scancode) {
        if input.state == KeyState::Released {
            let p = scancode_position(inputs, input.scancode);
            assert forall|i: int, j: int| 0 <= i < j < after.len() implies (#[trigger] after[i]).scancode != (#[trigger] after[j]).scancode by {
                let i2 = if i < p { i } else { i + 1 };
                let j2 = if j < p { j } else { j + 1 };
                assert(after[i] == inputs[i2]);
                assert(after[j] == inputs[j2]);
            }
        }
    } else if input.state != KeyState::Released {
        assert forall|i: int, j: int| 0 <= i < j < after.len() implies (#[trigger] after[i]).scancode != (#[trigger] after[j]).scancode by {
            if j == inputs.len() {
                assert(after[i] == inputs[i]);
            }
        }
    }
}

} // verus!
