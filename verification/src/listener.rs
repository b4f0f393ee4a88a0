//! The hotkey decoder: a stateful filter from raw key events to application
//! events. A command is a chord: the modifier is pressed first, and a command
//! key pressed while the modifier counts as held names the command.

use crate::app_events::AppEvent;
use vstd::prelude::*;

verus! {

/// A key, as far as the decoder tells keys apart.
#[derive(Debug, Clone, Copy, PartialEq, Eq, Structural)]
pub enum Key {
    /// The chord modifier (Alt).
    Modifier,
    S,
    A,
    H,
    Esc,
    /// Any key that is neither the modifier nor a command key.
    Other,
}

/// One raw event of the keyboard.
#[derive(Debug, Clone, Copy, PartialEq, Eq, Structural)]
pub enum RawKeyEvent {
    Press(Key),
    Release(Key),
}

/// The command that a key stands for when it completes a chord.
pub open spec fn command_of(key: Key) -> Option<AppEvent> {
    match key {
        Key::S => Some(AppEvent::InitializeGadget),
        Key::A => Some(AppEvent::GetSelected),
        Key::H => Some(AppEvent::GetHelp),
        Key::Esc => Some(AppEvent::Quit),
        Key::Modifier | Key::Other => None,
    }
}

/// What the decoder emits for `event` when the modifier state is `held`:
/// the command of a command key pressed while the modifier is held, and
/// nothing for every other event.
pub open spec fn emission(held: bool, event: RawKeyEvent) -> Option<AppEvent> {
    match event {
        RawKeyEvent::Press(key) => if held {
            command_of(key)
        } else {
            None
        },
        RawKeyEvent::Release(_) => None,
    }
}

/// The modifier state after `event`. Pressing the modifier sets it, and
/// releasing the modifier clears it. Pressing a command key clears it too:
/// a chord is used up by one command, and the modifier has to be pressed
/// again for the next. No other event changes it.
pub open spec fn held_after(held: bool, event: RawKeyEvent) -> bool {
    match event {
        RawKeyEvent::Press(Key::Modifier) => true,
        RawKeyEvent::Press(key) => held && command_of(key) is None,
        RawKeyEvent::Release(Key::Modifier) => false,
        RawKeyEvent::Release(_) => held,
    }
}

/// The modifier state after a whole sequence of events, starting from `held`.
pub open spec fn held_through(held: bool, events: Seq<RawKeyEvent>) -> bool
    decreases events.len(),
{
    if events.len() == 0 {
        held
    } else {
        held_after(held_through(held, events.drop_last()), events.last())
    }
}

/// What the decoder emits for the event at position `i` of `events`.
pub open spec fn emission_at(held: bool, events: Seq<RawKeyEvent>, i: int) -> Option<AppEvent> {
    emission(held_through(held, events.take(i)), events[i])
}

/// The application events that a sequence of raw events gives, in order.
pub open spec fn emissions(held: bool, events: Seq<RawKeyEvent>) -> Seq<AppEvent>
    decreases events.len(),
{
    if events.len() == 0 {
        Seq::empty()
    } else {
        let earlier = emissions(held, events.drop_last());
        match emission(held_through(held, events.drop_last()), events.last()) {
            Some(command) => earlier.push(command),
            None => earlier,
        }
    }
}

/// Whether the modifier is held: the whole state of the decoder.
pub struct AltKeyHandler {
    pressed: bool,
}

impl View for AltKeyHandler {
    type V = bool;

    closed spec fn view(&self) -> bool {
        self.pressed
    }
}

impl AltKeyHandler {
    pub fn new() -> (handler: Self)
        ensures
            !handler@,
    {
        Self { pressed: false }
    }

    pub fn press(&mut self)
        ensures
            final(self)@,
    {
        self.pressed = true;
    }

    pub fn release(&mut self)
        ensures
            !final(self)@,
    {
        self.pressed = false;
    }

    pub fn is_pressed(&self) -> (pressed: bool)
        ensures
            pressed == self@,
    {
        self.pressed
    }
}

/// The command that `key` stands for when it completes a chord.
pub fn command_for(key: Key) -> (command: Option<AppEvent>)
    ensures
        command == command_of(key),
{
    match key {
        Key::S => Some(AppEvent::InitializeGadget),
        Key::A => Some(AppEvent::GetSelected),
        Key::H => Some(AppEvent::GetHelp),
        Key::Esc => Some(AppEvent::Quit),
        Key::Modifier => None,
        Key::Other => None,
    }
}

/// The decoder of one keyboard listener. It owns the modifier state, and
/// nothing else reads or changes it.
pub struct HotkeyDecoder {
    alt: AltKeyHandler,
}

impl HotkeyDecoder {
    /// Whether the modifier counts as held.
    pub closed spec fn held(&self) -> bool {
        self.alt@
    }

    /// A decoder that has seen no event: the modifier is not held.
    pub fn new() -> (decoder: Self)
        ensures
            !decoder.held(),
    {
        Self { alt: AltKeyHandler::new() }
    }

    pub fn is_held(&self) -> (held: bool)
        ensures
            held == self.held(),
    {
        self.alt.is_pressed()
    }

    /// Takes one raw event and gives the application event that it
    /// completes, if any.
    pub fn decode(&mut self, event: RawKeyEvent) -> (emitted: Option<AppEvent>)
        ensures
            emitted == emission(old(self).held(), event),
            final(self).held() == held_after(old(self).held(), event),
    {
        match event {
            RawKeyEvent::Press(key) => {
                if let Key::Modifier = key {
                    self.alt.press();
                    None
                } else if self.alt.is_pressed() {
                    let command = command_for(key);
                    if command.is_some() {
                        self.alt.release();
                    }
                    command
                } else {
                    None
                }
            },
            RawKeyEvent::Release(Key::Modifier) => {
                self.alt.release();
                None
            },
            RawKeyEvent::Release(_) => None,
        }
    }

    /// Decodes a run of raw events in order and gives what they emit.
    pub fn decode_all(&mut self, events: &Vec<RawKeyEvent>) -> (emitted: Vec<AppEvent>)
        ensures
            emitted@ == emissions(old(self).held(), events@),
            final(self).held() == held_through(old(self).held(), events@),
    {
        let mut emitted: Vec<AppEvent> = Vec::new();
        let mut i: usize = 0;
        while i < events.len()
            invariant
                i <= events.len(),
                emitted@ == emissions(old(self).held(), events@.take(i as int)),
                self.held() == held_through(old(self).held(), events@.take(i as int)),
            decreases events.len() - i,
        {
            proof {
                let next = events@.take(i + 1);
                assert(next.drop_last() == events@.take(i as int));
                assert(next.last() == events@[i as int]);
            }
            if let Some(command) = self.decode(events[i]) {
                emitted.push(command);
            }
            i += 1;
        }
        proof {
            assert(events@.take(events.len() as int) == events@);
        }
        emitted
    }
}

/// Whether the event at position `i` completes a chord: it presses a command
/// key while the modifier is held.
pub open spec fn chord_at(held: bool, events: Seq<RawKeyEvent>, i: int) -> bool {
    &&& events[i] matches RawKeyEvent::Press(key)
    &&& command_of(key) is Some
    &&& held_through(held, events.take(i))
}

/// Whether `event` ends a hold of the modifier: its release, or the press of
/// a command key.
pub open spec fn disarms(event: RawKeyEvent) -> bool {
    match event {
        RawKeyEvent::Press(key) => command_of(key) is Some,
        RawKeyEvent::Release(key) => key == Key::Modifier,
    }
}

/// Whether the modifier was pressed at position `j` and nothing after it
/// ended that hold.
pub open spec fn armed_since(events: Seq<RawKeyEvent>, j: int) -> bool {
    &&& 0 <= j < events.len()
    &&& events[j] == RawKeyEvent::Press(Key::Modifier)
    &&& forall|k: int| j < k < events.len() ==> !disarms(#[trigger] events[k])
}

/// Decoding a sequence piece by piece gives what decoding it whole gives.
pub proof fn lemma_decoding_composes(
    held: bool,
    first: Seq<RawKeyEvent>,
    second: Seq<RawKeyEvent>,
)
    ensures
        held_through(held, first + second) == held_through(held_through(held, first), second),
        emissions(held, first + second) == emissions(held, first) + emissions(
            held_through(held, first),
            second,
        ),
    decreases second.len(),
{
    if second.len() == 0 {
        assert(first + second == first);
    } else {
        lemma_decoding_composes(held, first, second.drop_last());
        assert((first + second).drop_last() == first + second.drop_last());
        assert((first + second).last() == second.last());
    }
}

/// An event is emitted at a position if and only if that position completes a
/// chord, and the event is then the command of the key pressed there.
pub proof fn lemma_emission_iff_chord(held: bool, events: Seq<RawKeyEvent>, i: int)
    requires
        0 <= i < events.len(),
    ensures
        emission_at(held, events, i) is Some <==> chord_at(held, events, i),
        chord_at(held, events, i) ==> (events[i] matches RawKeyEvent::Press(key) && emission_at(
            held,
            events,
            i,
        ) == command_of(key)),
{
}

/// The emitted sequence holds exactly one event for each position that
/// completes a chord, in the order of the positions, and nothing else: it is
/// what the positions emit, with the silent ones left out.
pub proof fn lemma_one_event_per_chord(held: bool, events: Seq<RawKeyEvent>)
    ensures
        emissions(held, events) == Seq::new(
            events.len(),
            |i: int| emission_at(held, events, i),
        ).filter_map(|e: Option<AppEvent>| e),
    decreases events.len(),
{
    let whole = Seq::new(events.len(), |i: int| emission_at(held, events, i));
    if events.len() > 0 {
        let earlier = events.drop_last();
        lemma_one_event_per_chord(held, earlier);
        let part = Seq::new(earlier.len(), |i: int| emission_at(held, earlier, i));
        assert forall|i: int| 0 <= i < earlier.len() implies earlier.take(i) == events.take(i) by {}
        assert(whole.drop_last() == part);
        assert(events.take(events.len() - 1) == earlier);
        assert(emissions(held, earlier).push(whole.last()->0) == emissions(held, earlier)
            + seq![whole.last()->0]);
    }
}

/// The modifier counts as held after a sequence of events if and only if it
/// was pressed somewhere in the sequence and nothing ended that hold since,
/// or it was held before the sequence and nothing in the sequence ended that.
pub proof fn lemma_held_iff_armed(held: bool, events: Seq<RawKeyEvent>)
    ensures
        held_through(held, events) <==> ((exists|j: int| armed_since(events, j)) || (held
            && forall|k: int| 0 <= k < events.len() ==> !disarms(#[trigger] events[k]))),
    decreases events.len(),
{
    if events.len() > 0 {
        let earlier = events.drop_last();
        let last = events.last();
        let end = events.len() - 1;
        lemma_held_iff_armed(held, earlier);
        if disarms(last) {
            assert(disarms(events[end]));
        } else if last == RawKeyEvent::Press(Key::Modifier) {
            assert(armed_since(events, end));
        } else {
            assert forall|j: int| armed_since(earlier, j) <==> armed_since(events, j) by {
                if armed_since(earlier, j) {
                    assert forall|k: int| j < k < events.len() implies !disarms(
                        #[trigger] events[k],
                    ) by {
                        if k < end {
                            assert(events[k] == earlier[k]);
                        }
                    }
                }
                if armed_since(events, j) {
                    assert forall|k: int| j < k < earlier.len() implies !disarms(
                        #[trigger] earlier[k],
                    ) by {
                        assert(events[k] == earlier[k]);
                    }
                }
            }
            if forall|k: int| 0 <= k < earlier.len() ==> !disarms(#[trigger] earlier[k]) {
                assert forall|k: int| 0 <= k < events.len() implies !disarms(
                    #[trigger] events[k],
                ) by {
                    if k < end {
                        assert(events[k] == earlier[k]);
                    }
                }
            }
            if forall|k: int| 0 <= k < events.len() ==> !disarms(#[trigger] events[k]) {
                assert forall|k: int| 0 <= k < earlier.len() implies !disarms(
                    #[trigger] earlier[k],
                ) by {
                    assert(events[k] == earlier[k]);
                }
            }
        }
    }
}

/// A command key pressed after the modifier was released completes no
/// chord: the release and the press together emit nothing.
pub proof fn lemma_release_cancels_chord(held: bool, events: Seq<RawKeyEvent>, key: Key)
    ensures
        emissions(
            held,
            events + seq![RawKeyEvent::Release(Key::Modifier), RawKeyEvent::Press(key)],
        ) == emissions(held, events),
        held_through(
            held,
            events + seq![RawKeyEvent::Release(Key::Modifier), RawKeyEvent::Press(key)],
        ) == (key == Key::Modifier),
{
    let tail = seq![RawKeyEvent::Release(Key::Modifier), RawKeyEvent::Press(key)];
    lemma_decoding_composes(held, events, tail);
    let before = held_through(held, events);
    assert(tail.drop_last() == seq![RawKeyEvent::Release(Key::Modifier)]);
    assert(tail.drop_last().drop_last() == Seq::<RawKeyEvent>::empty());
    reveal_with_fuel(held_through, 3);
    reveal_with_fuel(emissions, 3);
}

/// One hold of the modifier gives one command: when the modifier is pressed
/// and a command key is then pressed twice, only the first press emits.
pub proof fn lemma_chord_fires_once(held: bool, events: Seq<RawKeyEvent>, key: Key)
    requires
        command_of(key) is Some,
    ensures
        emissions(
            held,
            events + seq![
                RawKeyEvent::Press(Key::Modifier),
                RawKeyEvent::Press(key),
                RawKeyEvent::Press(key),
            ],
        ) == emissions(held, events).push(command_of(key)->0),
{
    let tail = seq![
        RawKeyEvent::Press(Key::Modifier),
        RawKeyEvent::Press(key),
        RawKeyEvent::Press(key),
    ];
    lemma_decoding_composes(held, events, tail);
    let before = held_through(held, events);
    let two = seq![RawKeyEvent::Press(Key::Modifier), RawKeyEvent::Press(key)];
    let one = seq![RawKeyEvent::Press(Key::Modifier)];
    assert(tail.drop_last() == two);
    assert(two.drop_last() == one);
    assert(one.drop_last() == Seq::<RawKeyEvent>::empty());
    reveal_with_fuel(held_through, 4);
    reveal_with_fuel(emissions, 4);
    assert(emissions(before, two) == seq![command_of(key)->0]);
}

} // verus!
