//! The decisions of the terminal loop: what a terminal event does to the
//! editor, and what a look at the reply queue does to the scrollback.
use vstd::prelude::*;

use crate::input::{CommandInput, KeyCode};
use crate::ConsoleError;

verus! {

/// A key event.
#[derive(Clone, Copy, Debug, PartialEq, Eq, Structural)]
pub struct KeyPress {
    pub code: KeyCode,
    /// Control is held, and no other modifier.
    pub control_only: bool,
    /// The event is a press, not a release or a repeat.
    pub is_press: bool,
}

/// A terminal event.
#[derive(Debug)]
pub enum InputEvent {
    Key(KeyPress),
    FocusGained,
    FocusLost,
    Mouse,
    Paste(String),
    Resize(u16, u16),
}

/// What the terminal loop does after an event.
#[derive(Debug)]
pub enum UiAction {
    /// Keep running.
    Continue,
    /// Put this command on the command queue, then keep running.
    Submit(String),
    /// End the session normally.
    Quit,
}

/// Control-C.
pub open spec fn is_interrupt(k: KeyPress) -> bool {
    k.code == KeyCode::Char('c') && k.control_only
}

/// The buffer after a key press reaches the editor.
pub open spec fn buffer_after_key(buffer: Seq<char>, code: KeyCode) -> Seq<char> {
    match code {
        KeyCode::Char(ch) => buffer.push(ch),
        KeyCode::Backspace => if buffer.len() > 0 {
            buffer.drop_last()
        } else {
            buffer
        },
        _ => buffer,
    }
}

impl CommandInput {
    /// Reacts to one terminal event. Control-C quits; Enter submits the
    /// buffer and empties it; Escape does nothing; any other key press edits
    /// the buffer; every other event (a key release, focus, mouse, paste,
    /// resize) is ignored.
    pub fn handle_event(&mut self, event: InputEvent) -> (r: UiAction)
        requires
            old(self).wf(),
            event matches InputEvent::Key(k) && k.code is Char ==> old(self).total_len() + 1
                < usize::MAX,
        ensures
            final(self).prompt_chars() == old(self).prompt_chars(),
            final(self).wf(),
            match event {
                InputEvent::Key(k) => if is_interrupt(k) {
                    r is Quit && final(self).buffer() == old(self).buffer()
                } else if k.code == KeyCode::Esc {
                    r is Continue && final(self).buffer() == old(self).buffer()
                } else if k.code == KeyCode::Enter {
                    r matches UiAction::Submit(s) && s@ == old(self).buffer()
                        && final(self).buffer().len() == 0
                } else if k.is_press {
                    r is Continue && final(self).buffer() == buffer_after_key(
                        old(self).buffer(),
                        k.code,
                    )
                } else {
                    r is Continue && final(self).buffer() == old(self).buffer()
                },
                _ => r is Continue && final(self).buffer() == old(self).buffer(),
            },
    {
        match event {
            InputEvent::Key(k) => {
                if k.code == KeyCode::Char('c') && k.control_only {
                    UiAction::Quit
                } else if k.code == KeyCode::Esc {
                    UiAction::Continue
                } else if k.code == KeyCode::Enter {
                    UiAction::Submit(self.take_input())
                } else if k.is_press {
                    self.on_key_press(k.code);
                    UiAction::Continue
                } else {
                    UiAction::Continue
                }
            },
            InputEvent::FocusGained => UiAction::Continue,
            InputEvent::FocusLost => UiAction::Continue,
            InputEvent::Mouse => UiAction::Continue,
            InputEvent::Paste(_) => UiAction::Continue,
            InputEvent::Resize(_, _) => UiAction::Continue,
        }
    }
}

/// What a non-blocking look at the reply queue found.
#[derive(Debug)]
pub enum Drained {
    /// A reply was waiting.
    Response(String),
    /// Nothing was waiting.
    Empty,
    /// The queue is closed.
    Closed,
}

/// The scrollback after a look at the reply queue.
pub open spec fn after_drain(entries: Seq<Seq<char>>, d: Drained) -> Seq<Seq<char>> {
    match d {
        Drained::Response(s) => entries.push(s@),
        _ => entries,
    }
}

/// The replies that a series of looks at the reply queue found, in order.
pub open spec fn responses_in(ds: Seq<Drained>) -> Seq<Seq<char>>
    decreases ds.len(),
{
    if ds.len() == 0 {
        seq![]
    } else {
        let rest = responses_in(ds.drop_last());
        match ds.last() {
            Drained::Response(s) => rest.push(s@),
            _ => rest,
        }
    }
}

/// The scrollback after a series of looks at the reply queue, one by one.
pub open spec fn after_drains(entries: Seq<Seq<char>>, ds: Seq<Drained>) -> Seq<Seq<char>>
    decreases ds.len(),
{
    if ds.len() == 0 {
        entries
    } else {
        after_drain(after_drains(entries, ds.drop_last()), ds.last())
    }
}

/// Replies reach the scrollback in the order in which they were taken from
/// the queue, each exactly once, after what was there before.
pub proof fn lemma_replies_kept_in_order(entries: Seq<Seq<char>>, ds: Seq<Drained>)
    ensures
        after_drains(entries, ds) == entries + responses_in(ds),
    decreases ds.len(),
{
    if ds.len() == 0 {
        assert(entries + seq![] =~= entries);
    } else {
        lemma_replies_kept_in_order(entries, ds.drop_last());
        match ds.last() {
            Drained::Response(s) => {
                assert(entries + responses_in(ds.drop_last()).push(s@) =~= (entries
                    + responses_in(ds.drop_last())).push(s@));
            },
            _ => {},
        }
    }
}

/// The entries of a scrollback, newest first.
pub open spec fn newest_first_of(entries: Seq<Seq<char>>) -> Seq<Seq<char>> {
    Seq::new(entries.len(), |i: int| entries[entries.len() - 1 - i])
}

/// The replies shown so far, oldest first. Entries are only ever appended.
pub struct Scrollback {
    entries: Vec<String>,
}

impl Scrollback {
    /// The entries, oldest first.
    pub closed spec fn entries(&self) -> Seq<Seq<char>> {
        self.entries.deep_view()
    }

    /// An empty scrollback.
    pub fn new() -> (r: Self)
        ensures
            r.entries().len() == 0,
    {
        let r = Scrollback { entries: Vec::new() };
        proof {
            assert(r.entries() =~= Seq::<Seq<char>>::empty());
        }
        r
    }

    /// The number of entries.
    pub fn len(&self) -> (r: usize)
        ensures
            r == self.entries().len(),
    {
        self.entries.len()
    }

    /// Takes in what a look at the reply queue found: a reply is appended, an
    /// empty queue changes nothing, a closed queue ends the terminal loop.
    pub fn on_drain(&mut self, d: Drained) -> (r: Result<(), ConsoleError>)
        ensures
            final(self).entries() == after_drain(old(self).entries(), d),
            d is Closed <==> r is Err,
            r matches Err(e) ==> e is DisconnectedNetworkChannel,
    {
        match d {
            Drained::Response(s) => {
                let ghost before = self.entries();
                let ghost text = s@;
                self.entries.push(s);
                proof {
                    assert(self.entries() =~= before.push(text));
                }
                Ok(())
            },
            Drained::Empty => Ok(()),
            Drained::Closed => Err(ConsoleError::DisconnectedNetworkChannel),
        }
    }

    /// The entries, newest first, as the output area shows them.
    pub fn newest_first(&self) -> (r: Vec<String>)
        ensures
            r.deep_view() == newest_first_of(self.entries()),
    {
        let n = self.entries.len();
        let mut out: Vec<String> = Vec::new();
        let mut i: usize = 0;
        while i < n
            invariant
                i <= n,
                n == self.entries().len(),
                self.entries() == self.entries.deep_view(),
                out.deep_view() =~= newest_first_of(self.entries()).take(i as int),
            decreases n - i,
        {
            let s = self.entries[n - 1 - i].clone();
            let ghost before = out.deep_view();
            out.push(s);
            proof {
                assert(out.deep_view() =~= before.push(s@));
                assert(newest_first_of(self.entries()).take(i + 1) =~= newest_first_of(
                    self.entries(),
                ).take(i as int).push(s@));
            }
            i = i + 1;
        }
        proof {
            assert(newest_first_of(self.entries()).take(n as int) =~= newest_first_of(
                self.entries(),
            ));
        }
        out
    }
}

} // verus!
