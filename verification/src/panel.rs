use vstd::prelude::*;

use crate::event::{describe, description, InputEvent};

verus! {

/// The state one keyboard-debugger panel carries across frames: the edited
/// text line and the log of event descriptions, both as mathematical values.
#[verifier::ext_equal]
pub struct PanelView {
    /// The single line of user-editable text.
    pub text: Seq<char>,
    /// The recorded event descriptions, in arrival order.
    pub log: Seq<Seq<char>>,
}

/// What clearing does to a panel: the log empties, the text stays.
pub open spec fn spec_clear(v: PanelView) -> PanelView {
    PanelView { text: v.text, log: Seq::empty() }
}

/// What feeding one event does to a panel: the event's description is
/// appended to the end of the log, the text stays.
pub open spec fn spec_feed(v: PanelView, e: InputEvent) -> PanelView {
    PanelView { text: v.text, log: v.log.push(description(e)) }
}

/// Clearing a panel twice in a row leaves exactly the state that clearing
/// it once leaves: the log stays empty and the text is untouched either way.
pub proof fn lemma_clear_idempotent(v: PanelView)
    ensures
        spec_clear(spec_clear(v)) == spec_clear(v),
{
    assert(spec_clear(spec_clear(v)) =~= spec_clear(v));
}

/// A panel that accumulates a human-readable trace of keyboard and IME
/// input events beside a free-text input field, for manual inspection of
/// what input events the host window system delivers.
pub struct KeyboardDebugger {
    text_buffer: String,
    event_buffer: Vec<String>,
}

impl View for KeyboardDebugger {
    type V = PanelView;

    closed spec fn view(&self) -> PanelView {
        PanelView { text: self.text_buffer@, log: self.event_buffer.deep_view() }
    }
}

impl KeyboardDebugger {
    /// A fresh panel: empty text line, empty log.
    pub fn new() -> (panel: KeyboardDebugger)
        ensures
            panel@.text == Seq::<char>::empty(),
            panel@.log == Seq::<Seq<char>>::empty(),
    {
        let panel = KeyboardDebugger { text_buffer: String::new(), event_buffer: Vec::new() };
        proof {
            assert(panel@.log =~= Seq::<Seq<char>>::empty());
        }
        panel
    }

    /// Appends the textual description of `event` to the end of the log.
    /// Every event handed in is recorded, repeats included; nothing else
    /// changes.
    pub fn feed(&mut self, event: &InputEvent)
        ensures
            final(self)@ == spec_feed(old(self)@, *event),
    {
        let entry = describe(event);
        self.event_buffer.push(entry);
        proof {
            assert(self@.log =~= old(self)@.log.push(description(*event)));
            assert(self@ =~= spec_feed(old(self)@, *event));
        }
    }

    /// Empties the log, however long it was; the text line is untouched.
    pub fn clear(&mut self)
        ensures
            final(self)@ == spec_clear(old(self)@),
    {
        self.event_buffer.clear();
        proof {
            assert(self@.log =~= Seq::<Seq<char>>::empty());
            assert(self@ =~= spec_clear(old(self)@));
        }
    }

    /// Feeds every event of `events`, first to last. The log afterwards is
    /// the old log followed by one description per event, in arrival order:
    /// feeding is order-preserving and lossless, one entry per event.
    pub fn feed_all(&mut self, events: &Vec<InputEvent>)
        ensures
            final(self)@.text == old(self)@.text,
            final(self)@.log == old(self)@.log + events@.map_values(
                |e: InputEvent| description(e),
            ),
    {
        let n: usize = events.len();
        let mut i: usize = 0;
        while i < n
            invariant
                n == events@.len(),
                i <= n,
                self@.text == old(self)@.text,
                self@.log == old(self)@.log + events@.take(i as int).map_values(
                    |e: InputEvent| description(e),
                ),
            decreases n - i,
        {
            self.feed(&events[i]);
            i = i + 1;
            proof {
                assert(events@.take(i as int).map_values(|e: InputEvent| description(e)) =~= events@.take(
                    i as int - 1,
                ).map_values(|e: InputEvent| description(e)).push(
                    description(events@[i as int - 1]),
                ));
                assert(self@.log =~= old(self)@.log + events@.take(i as int).map_values(
                    |e: InputEvent| description(e),
                ));
            }
        }
        proof {
            assert(events@.take(n as int) =~= events@);
        }
    }

    /// Replaces the editable text line; the log is untouched. The host UI
    /// writes the user's edits back through this method.
    pub fn set_text(&mut self, text: String)
        ensures
            final(self)@.text == text@,
            final(self)@.log == old(self)@.log,
    {
        self.text_buffer = text;
    }

    /// The current text line.
    pub fn text(&self) -> (t: &String)
        ensures
            t@ == self@.text,
    {
        &self.text_buffer
    }

    /// How many events have been logged since construction or the last
    /// clear.
    pub fn log_len(&self) -> (n: usize)
        ensures
            n == self@.log.len(),
    {
        self.event_buffer.len()
    }

    /// The `i`th logged entry, oldest first.
    pub fn log_entry(&self, i: usize) -> (entry: &String)
        requires
            i < self@.log.len(),
        ensures
            entry@ == self@.log[i as int],
    {
        &self.event_buffer[i]
    }
}

} // verus!
