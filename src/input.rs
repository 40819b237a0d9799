//! The command line editor: a fixed prompt followed by an editable buffer,
//! measured in characters and wrapped to the width of the terminal.
use vstd::prelude::*;
use vstd::string::StrSliceExecFns;

verus! {

/// The prompt shown in front of the buffer.
pub const PROMPT: &'static str = "> ";

/// The key of a key event, as far as the editor tells keys apart.
#[derive(Clone, Copy, Debug, PartialEq, Eq, Structural)]
pub enum KeyCode {
    Char(char),
    Backspace,
    Enter,
    Esc,
    /// Any other key: arrows, function keys, and the like.
    Other,
}

/// Rows the input area reserves for `len` characters at width `width`.
pub open spec fn rows_for(len: nat, width: nat) -> nat
    recommends
        width > 0,
{
    len / width + 1
}

/// Column of the cursor on the last occupied row.
pub open spec fn column_for(len: nat, width: nat) -> nat
    recommends
        width > 0,
{
    len % width
}

/// Buffer characters that fit on the first row beside the prompt.
pub open spec fn first_row_room(prompt_len: nat, width: nat) -> nat {
    if width > prompt_len {
        (width - prompt_len) as nat
    } else {
        0
    }
}

/// `s` cut into successive rows of `width` characters, the last one possibly
/// shorter; nothing for an empty `s`.
pub open spec fn wrap_rows(s: Seq<char>, width: nat) -> Seq<Seq<char>>
    decreases s.len(),
{
    if s.len() == 0 || width == 0 {
        seq![]
    } else if s.len() <= width {
        seq![s]
    } else {
        seq![s.take(width as int)] + wrap_rows(s.skip(width as int), width)
    }
}

/// The rows of the input area: the prompt with as much of the buffer as fits
/// beside it, then the rest of the buffer in rows of `width` characters.
pub open spec fn input_rows(prompt: Seq<char>, buffer: Seq<char>, width: nat) -> Seq<Seq<char>> {
    let k = if first_row_room(prompt.len(), width) < buffer.len() {
        first_row_room(prompt.len(), width)
    } else {
        buffer.len()
    };
    seq![prompt + buffer.take(k as int)] + wrap_rows(buffer.skip(k as int), width)
}

/// Unfolds one row of `wrap_rows` on a non-empty sequence.
pub proof fn lemma_wrap_rows_step(s: Seq<char>, width: nat)
    requires
        s.len() > 0,
        width > 0,
    ensures
        ({
            let k = if s.len() <= width { s.len() } else { width };
            wrap_rows(s, width) == seq![s.take(k as int)] + wrap_rows(s.skip(k as int), width)
        }),
{
    if s.len() <= width {
        assert(s.take(s.len() as int) =~= s);
        assert(s.skip(s.len() as int).len() == 0);
        assert(wrap_rows(s.skip(s.len() as int), width) =~= seq![]);
        assert(seq![s] + seq![] =~= seq![s]);
    }
}

/// A single-line command editor.
pub struct CommandInput {
    prompt: &'static str,
    input: String,
}

impl CommandInput {
    /// The characters of the prompt.
    pub closed spec fn prompt_chars(&self) -> Seq<char> {
        self.prompt@
    }

    /// The characters typed so far.
    pub closed spec fn buffer(&self) -> Seq<char> {
        self.input@
    }

    /// Prompt and buffer, counted in characters.
    pub open spec fn total_len(&self) -> nat {
        self.prompt_chars().len() + self.buffer().len()
    }

    /// The length still fits a `usize` with room for the row arithmetic.
    pub open spec fn wf(&self) -> bool {
        self.total_len() < usize::MAX
    }

    /// An editor with the prompt `"> "` and an empty buffer.
    pub fn new() -> (r: Self)
        ensures
            r.prompt_chars() == PROMPT@,
            r.prompt_chars().len() == 2,
            r.buffer().len() == 0,
            r.wf(),
    {
        proof {
            reveal_strlit("> ");
        }
        CommandInput { prompt: PROMPT, input: String::new() }
    }

    /// The number of characters of prompt and buffer together.
    pub fn len(&self) -> (r: usize)
        requires
            self.wf(),
        ensures
            r == self.total_len(),
    {
        self.prompt.unicode_len() + self.input.as_str().unicode_len()
    }

    /// The prompt text.
    pub fn prompt(&self) -> (r: &str)
        ensures
            r@ == self.prompt_chars(),
    {
        self.prompt
    }

    /// The buffer text.
    pub fn input(&self) -> (r: &str)
        ensures
            r@ == self.buffer(),
    {
        self.input.as_str()
    }

    /// Appends one character to the buffer.
    pub fn append(&mut self, ch: char)
        requires
            old(self).total_len() + 1 < usize::MAX,
        ensures
            final(self).prompt_chars() == old(self).prompt_chars(),
            final(self).buffer() == old(self).buffer().push(ch),
            final(self).wf(),
    {
        self.input.push(ch);
    }

    /// Removes the last character of the buffer; an empty buffer stays empty.
    pub fn backspace(&mut self)
        requires
            old(self).wf(),
        ensures
            final(self).prompt_chars() == old(self).prompt_chars(),
            old(self).buffer().len() > 0 ==> final(self).buffer() == old(self).buffer().drop_last(),
            old(self).buffer().len() == 0 ==> final(self).buffer() == old(self).buffer(),
            final(self).wf(),
    {
        self.input.pop();
    }

    /// Hands out the buffer and leaves it empty.
    pub fn take_input(&mut self) -> (r: String)
        requires
            old(self).wf(),
        ensures
            r@ == old(self).buffer(),
            final(self).prompt_chars() == old(self).prompt_chars(),
            final(self).buffer().len() == 0,
            final(self).wf(),
    {
        let taken = self.input.clone();
        self.input = String::new();
        taken
    }

    /// Edits the buffer for a key press: a character is appended, backspace
    /// removes the last character, every other key leaves it as it is.
    pub fn on_key_press(&mut self, key: KeyCode)
        requires
            old(self).wf(),
            key is Char ==> old(self).total_len() + 1 < usize::MAX,
        ensures
            final(self).prompt_chars() == old(self).prompt_chars(),
            final(self).buffer() == (match key {
                KeyCode::Char(ch) => old(self).buffer().push(ch),
                KeyCode::Backspace => if old(self).buffer().len() > 0 {
                    old(self).buffer().drop_last()
                } else {
                    old(self).buffer()
                },
                _ => old(self).buffer(),
            }),
            final(self).wf(),
    {
        match key {
            KeyCode::Char(ch) => self.append(ch),
            KeyCode::Backspace => self.backspace(),
            _ => {},
        }
    }

    /// Appends the buffer characters `from..to` to `line`.
    fn push_buffer_range(&self, line: &mut String, from: usize, to: usize)
        requires
            from <= to <= self.buffer().len(),
        ensures
            final(line)@ == old(line)@ + self.buffer().subrange(from as int, to as int),
    {
        let text = self.input.as_str();
        let mut i: usize = from;
        while i < to
            invariant
                from <= i <= to,
                to <= text@.len(),
                text@ == self.buffer(),
                line@ == old(line)@ + self.buffer().subrange(from as int, i as int),
            decreases to - i,
        {
            line.push(text.get_char(i));
            proof {
                assert(self.buffer().subrange(from as int, i + 1) =~= self.buffer().subrange(
                    from as int,
                    i as int,
                ).push(self.buffer()[i as int]));
            }
            i = i + 1;
        }
    }

    /// The rows of the input area at width `width`: the prompt with as much
    /// of the buffer as fits beside it, then the rest of the buffer in rows
    /// of `width` characters, up to the end of the buffer.
    pub fn render(&self, width: u16) -> (r: Vec<String>)
        requires
            self.wf(),
        ensures
            r.deep_view() == input_rows(self.prompt_chars(), self.buffer(), width as nat),
    {
        let w = width as usize;
        let prompt_len = self.prompt.unicode_len();
        let n = self.input.as_str().unicode_len();
        let room = if w > prompt_len {
            w - prompt_len
        } else {
            0
        };
        let k = if room < n {
            room
        } else {
            n
        };
        let ghost buf = self.buffer();
        let mut first = String::new();
        first.push_str(self.prompt);
        self.push_buffer_range(&mut first, 0, k);
        proof {
            assert(buf.subrange(0, k as int) =~= buf.take(k as int));
            assert(first@ =~= self.prompt_chars() + buf.take(k as int));
        }
        let mut rows: Vec<String> = Vec::new();
        rows.push(first);
        proof {
            assert(rows.deep_view() =~= seq![self.prompt_chars() + buf.take(k as int)]);
        }
        let mut pos: usize = k;
        while pos < n && w > 0
            invariant
                k <= pos <= n,
                n == buf.len(),
                w == width,
                buf == self.buffer(),
                rows.deep_view() + wrap_rows(buf.skip(pos as int), w as nat) == input_rows(
                    self.prompt_chars(),
                    buf,
                    w as nat,
                ),
            decreases n - pos,
        {
            let end = if n - pos <= w {
                n
            } else {
                pos + w
            };
            let mut line = String::new();
            self.push_buffer_range(&mut line, pos, end);
            let ghost before = rows.deep_view();
            proof {
                let rest = buf.skip(pos as int);
                lemma_wrap_rows_step(rest, w as nat);
                assert(rest.take((end - pos) as int) =~= buf.subrange(pos as int, end as int));
                assert(rest.skip((end - pos) as int) =~= buf.skip(end as int));
                assert(line@ =~= buf.subrange(pos as int, end as int));
            }
            rows.push(line);
            proof {
                assert(rows.deep_view() =~= before.push(buf.subrange(pos as int, end as int)));
                assert(before + wrap_rows(buf.skip(pos as int), w as nat) =~= rows.deep_view()
                    + wrap_rows(buf.skip(end as int), w as nat));
            }
            pos = end;
        }
        proof {
            assert(wrap_rows(buf.skip(pos as int), w as nat) =~= seq![]);
            assert(rows.deep_view() + seq![] =~= rows.deep_view());
        }
        rows
    }

    /// Rows the input area needs at width `width`: `len / width + 1`.
    pub fn rows_needed(&self, width: u16) -> (r: usize)
        requires
            self.wf(),
            width > 0,
        ensures
            r == rows_for(self.total_len(), width as nat),
    {
        self.len() / (width as usize) + 1
    }

    /// Cursor column on the last occupied row: `len % width`.
    pub fn cursor_column(&self, width: u16) -> (r: u16)
        requires
            self.wf(),
            width > 0,
        ensures
            r == column_for(self.total_len(), width as nat),
    {
        (self.len() % (width as usize)) as u16
    }
}

} // verus!
