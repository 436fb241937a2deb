//! The line protocol spoken with a slave terminal: newline-framed messages,
//! their classification, and the trades that wait for an acknowledgement.
use vstd::prelude::*;
use crate::text::{contains_chars, contains_seq, from_chars, starts_with_chars, to_chars, first_of, lemma_first_of, lemma_first_of_unique, trim, trim_range, copy_range};

verus! {

/// The messages framed in `buf`: every segment that a newline ends, trimmed,
/// with empty segments left out, in order.
pub open spec fn messages_of(buf: Seq<char>) -> Seq<Seq<char>>
    decreases buf.len(),
{
    let i = first_of(buf, '\n');
    if i < buf.len() {
        let line = trim(buf.subrange(0, i as int));
        let rest = messages_of(buf.subrange(i as int + 1, buf.len() as int));
        if line.len() == 0 {
            rest
        } else {
            seq![line] + rest
        }
    } else {
        Seq::empty()
    }
}

/// What follows the last newline of `buf`: the start of a message still to come.
pub open spec fn unframed_rest(buf: Seq<char>) -> Seq<char>
    decreases buf.len(),
{
    let i = first_of(buf, '\n');
    if i < buf.len() {
        unframed_rest(buf.subrange(i as int + 1, buf.len() as int))
    } else {
        buf
    }
}

/// Splits a receive buffer into its complete messages and the unframed rest.
pub fn split_messages(buffer: &[char]) -> (res: (Vec<Vec<char>>, Vec<char>))
    ensures
        res.0.deep_view() == messages_of(buffer@),
        res.1@ == unframed_rest(buffer@),
{
    let n = buffer.len();
    let mut out: Vec<Vec<char>> = Vec::new();
    let mut pos: usize = 0;
    assert(buffer@.subrange(0, n as int) =~= buffer@);
    loop
        invariant
            n == buffer@.len(),
            pos <= n,
            messages_of(buffer@) == out.deep_view() + messages_of(
                buffer@.subrange(pos as int, n as int),
            ),
            unframed_rest(buffer@) == unframed_rest(buffer@.subrange(pos as int, n as int)),
        decreases n - pos,
    {
        let ghost rest = buffer@.subrange(pos as int, n as int);
        let mut j: usize = pos;
        while j < n && buffer[j] != '\n'
            invariant
                pos <= j <= n,
                n == buffer@.len(),
                forall|k: int| pos <= k < j ==> buffer@[k] != '\n',
            decreases n - j,
        {
            j += 1;
        }
        proof {
            assert forall|k: int| 0 <= k < j - pos implies rest[k] != '\n' by {
                assert(rest[k] == buffer@[pos + k]);
            }
            if j < n {
                assert(rest[j - pos] == buffer@[j as int]);
            }
            lemma_first_of_unique(rest, '\n', j - pos);
        }
        if j == n {
            assert(messages_of(rest) =~= Seq::<Seq<char>>::empty());
            assert(out.deep_view() + Seq::<Seq<char>>::empty() =~= out.deep_view());
            let tail = copy_range(buffer, pos, n);
            return (out, tail);
        }
        let line = trim_range(buffer, pos, j);
        proof {
            assert(rest.subrange(0, j - pos) =~= buffer@.subrange(pos as int, j as int));
            assert(rest.subrange(j - pos + 1, rest.len() as int) =~= buffer@.subrange(
                j + 1,
                n as int,
            ));
        }
        if line.len() > 0 {
            let ghost before = out.deep_view();
            assert(line.deep_view() =~= line@);
            out.push(line);
            proof {
                assert(out.deep_view() =~= before.push(line@));
                assert(before + (seq![line@] + messages_of(buffer@.subrange(j + 1, n as int)))
                    =~= before.push(line@) + messages_of(buffer@.subrange(j + 1, n as int)));
            }
        }
        pos = j + 1;
    }
}

/// Splitting the incoming stream into chunks does not change the messages
/// extracted from it: processing `x` and then the leftover with `y` appended
/// yields exactly what processing `x + y` at once yields.
pub proof fn lemma_messages_chunked(x: Seq<char>, y: Seq<char>)
    ensures
        messages_of(x + y) == messages_of(x) + messages_of(unframed_rest(x) + y),
        unframed_rest(x + y) == unframed_rest(unframed_rest(x) + y),
    decreases x.len(),
{
    let i = first_of(x, '\n');
    lemma_first_of(x, '\n');
    if i < x.len() {
        let xy = x + y;
        assert forall|k: int| 0 <= k < i implies xy[k] != '\n' by {
            assert(xy[k] == x[k]);
        }
        assert(xy[i as int] == x[i as int]);
        lemma_first_of_unique(xy, '\n', i as int);
        assert(xy.subrange(0, i as int) =~= x.subrange(0, i as int));
        let xr = x.subrange(i as int + 1, x.len() as int);
        assert(xy.subrange(i as int + 1, xy.len() as int) =~= xr + y);
        lemma_messages_chunked(xr, y);
        let line = trim(x.subrange(0, i as int));
        if line.len() != 0 {
            assert(seq![line] + (messages_of(xr) + messages_of(unframed_rest(xr) + y)) =~= (
            seq![line] + messages_of(xr)) + messages_of(unframed_rest(xr) + y));
        }
    } else {
        assert(messages_of(x) =~= Seq::<Seq<char>>::empty());
        assert(Seq::<Seq<char>>::empty() + messages_of(x + y) =~= messages_of(x + y));
    }
}


/// Text without a newline frames no message yet: all of it waits as the
/// unframed rest.
pub proof fn lemma_unframed_text(s: Seq<char>)
    requires
        !s.contains('\n'),
    ensures
        messages_of(s) == Seq::<Seq<char>>::empty(),
        unframed_rest(s) == s,
{
    lemma_first_of(s, '\n');
    if first_of(s, '\n') < s.len() {
        assert(s[first_of(s, '\n') as int] == '\n');
    }
}

/// A newline frames the text before it: the line, trimmed, is the next
/// message unless it is only white space, and the messages after it are those
/// of what follows the newline. So a line is dropped only when its trimmed
/// text is empty, whatever characters it holds.
pub proof fn lemma_line_framed(s: Seq<char>, t: Seq<char>)
    requires
        !s.contains('\n'),
    ensures
        trim(s).len() > 0 ==> messages_of(s + seq!['\n'] + t) == seq![trim(s)] + messages_of(t),
        trim(s).len() == 0 ==> messages_of(s + seq!['\n'] + t) == messages_of(t),
        unframed_rest(s + seq!['\n'] + t) == unframed_rest(t),
{
    let buf = s + seq!['\n'] + t;
    assert forall|j: int| 0 <= j < s.len() implies buf[j] != '\n' by {
        assert(buf[j] == s[j]);
        if s[j] == '\n' {
            assert(s.contains('\n'));
        }
    }
    assert(buf[s.len() as int] == '\n');
    lemma_first_of_unique(buf, '\n', s.len() as int);
    assert(buf.subrange(0, s.len() as int) =~= s);
    assert(buf.subrange(s.len() as int + 1, buf.len() as int) =~= t);
}

/// A single line sent with its newline is exactly one message, the line
/// trimmed, when anything but white space is in it; nothing is left over.
pub proof fn lemma_single_line(s: Seq<char>)
    requires
        !s.contains('\n'),
        trim(s).len() > 0,
    ensures
        messages_of(s + seq!['\n']) == seq![trim(s)],
        unframed_rest(s + seq!['\n']) == Seq::<char>::empty(),
{
    lemma_line_framed(s, Seq::empty());
    assert(s + seq!['\n'] + Seq::<char>::empty() =~= s + seq!['\n']);
    lemma_unframed_text(Seq::<char>::empty());
    assert(seq![trim(s)] + Seq::<Seq<char>>::empty() =~= seq![trim(s)]);
}

/// Trimming a text that lacks a character leaves a text that lacks it.
proof fn lemma_trim_keeps_absence(s: Seq<char>, c: char)
    requires
        !s.contains(c),
    ensures
        !trim(s).contains(c),
{
    lemma_trim_start_keeps_absence(s, c);
    lemma_trim_end_keeps_absence(crate::text::trim_start(s), c);
}

proof fn lemma_trim_start_keeps_absence(s: Seq<char>, c: char)
    requires
        !s.contains(c),
    ensures
        !crate::text::trim_start(s).contains(c),
    decreases s.len(),
{
    if s.len() > 0 && crate::text::is_white_space(s[0]) {
        assert forall|k: int| 0 <= k < s.drop_first().len() implies s.drop_first()[k] != c by {
            assert(s.drop_first()[k] == s[k + 1]);
        }
        lemma_trim_start_keeps_absence(s.drop_first(), c);
    }
}

proof fn lemma_trim_end_keeps_absence(s: Seq<char>, c: char)
    requires
        !s.contains(c),
    ensures
        !crate::text::trim_end(s).contains(c),
    decreases s.len(),
{
    if s.len() > 0 && crate::text::is_white_space(s.last()) {
        assert forall|k: int| 0 <= k < s.drop_last().len() implies s.drop_last()[k] != c by {
            assert(s.drop_last()[k] == s[k]);
        }
        lemma_trim_end_keeps_absence(s.drop_last(), c);
    }
}

/// Every message taken from the stream is non-empty and holds no line
/// break, and what is left over holds none either.
pub proof fn lemma_messages_well_formed(buf: Seq<char>)
    ensures
        forall|k: int|
            0 <= k < messages_of(buf).len() ==> #[trigger] messages_of(buf)[k].len() > 0
                && !messages_of(buf)[k].contains('\n'),
        !unframed_rest(buf).contains('\n'),
    decreases buf.len(),
{
    let i = first_of(buf, '\n');
    lemma_first_of(buf, '\n');
    if i < buf.len() {
        let seg = buf.subrange(0, i as int);
        let rest = buf.subrange(i as int + 1, buf.len() as int);
        assert forall|k: int| 0 <= k < seg.len() implies seg[k] != '\n' by {
            assert(seg[k] == buf[k]);
        }
        lemma_trim_keeps_absence(seg, '\n');
        lemma_messages_well_formed(rest);
        let line = trim(seg);
        if line.len() != 0 {
            assert forall|k: int| 0 <= k < messages_of(buf).len() implies #[trigger] messages_of(
                buf,
            )[k].len() > 0 && !messages_of(buf)[k].contains('\n') by {
                if k > 0 {
                    assert(messages_of(buf)[k] == messages_of(rest)[k - 1]);
                }
            }
        }
    } else {
        assert forall|k: int| 0 <= k < buf.len() implies buf[k] != '\n' by {}
    }
}

/// Splits the text received so far into complete messages and the rest that
/// still waits for its newline.
pub fn take_messages(buffer: &str) -> (res: (Vec<String>, String))
    ensures
        res.0.deep_view() == messages_of(buffer@),
        res.1@ == unframed_rest(buffer@),
{
    let chars = to_chars(buffer);
    let (lines, rest) = split_messages(chars.as_slice());
    let mut out: Vec<String> = Vec::new();
    let mut i: usize = 0;
    while i < lines.len()
        invariant
            i <= lines.len(),
            out.len() == i,
            out.deep_view() == lines.deep_view().take(i as int),
        decreases lines.len() - i,
    {
        let s = from_chars(lines[i].as_slice());
        let ghost before = out.deep_view();
        let ghost old_out = out@;
        let ghost sv = s@;
        out.push(s);
        proof {
            assert(out@ == old_out.push(s));
            assert(out@[i as int]@ == sv);
            assert(out.deep_view()[i as int] == out@[i as int].deep_view());
            assert(lines@[i as int].deep_view() =~= lines@[i as int]@);
            assert(lines.deep_view()[i as int] == lines@[i as int]@);
            assert(out.deep_view()[i as int] == sv);
            assert forall|k: int| 0 <= k < i implies out.deep_view()[k] == before[k] by {}
            assert(out.deep_view() =~= lines.deep_view().take(i + 1));
        }
        i += 1;
    }
    assert(lines.deep_view().take(lines.len() as int) =~= lines.deep_view());
    (out, from_chars(rest.as_slice()))
}

/// What a message from a slave terminal is.
#[derive(PartialEq, Eq, Debug, Clone, Copy)]
pub enum Mt5Message {
    /// A JSON object that reports the account's profit.
    Profit,
    /// The terminal's answer to a trade: `OK:...` or `ERROR:...`.
    Acknowledgement,
    /// Anything else; it is only logged.
    Unknown,
}

/// The kind of a message: a profit report starts with `{` and mentions
/// `profit`; an acknowledgement starts with `OK:` or `ERROR:`.
pub open spec fn message_kind(m: Seq<char>) -> Mt5Message {
    if seq!['{'].is_prefix_of(m) && contains_seq(m, "profit"@) {
        Mt5Message::Profit
    } else if "OK:"@.is_prefix_of(m) || "ERROR:"@.is_prefix_of(m) {
        Mt5Message::Acknowledgement
    } else {
        Mt5Message::Unknown
    }
}

/// Classifies a message received from a slave terminal.
pub fn classify_message(message: &str) -> (k: Mt5Message)
    ensures
        k == message_kind(message@),
{
    let m = to_chars(message);
    let brace = vec!['{'];
    assert(brace@ =~= seq!['{']);
    if starts_with_chars(m.as_slice(), brace.as_slice()) && contains_chars(
        m.as_slice(),
        to_chars("profit").as_slice(),
    ) {
        Mt5Message::Profit
    } else if starts_with_chars(m.as_slice(), to_chars("OK:").as_slice()) || starts_with_chars(
        m.as_slice(),
        to_chars("ERROR:").as_slice(),
    ) {
        Mt5Message::Acknowledgement
    } else {
        Mt5Message::Unknown
    }
}


/// Position of the entry for `id` in `s`, or -1 when there is none.
pub open spec fn id_index<S>(s: Seq<(u64, S)>, id: u64) -> int
    decreases s.len(),
{
    if s.len() == 0 {
        -1
    } else if s[0].0 == id {
        0
    } else {
        let r = id_index(s.drop_first(), id);
        if r < 0 {
            -1
        } else {
            r + 1
        }
    }
}

/// `id_index` finds the first entry for `id`, and -1 means there is none.
pub proof fn lemma_id_index<S>(s: Seq<(u64, S)>, id: u64)
    ensures
        -1 <= id_index(s, id) < s.len(),
        id_index(s, id) >= 0 ==> s[id_index(s, id)].0 == id,
        forall|j: int| 0 <= j < s.len() && j < id_index(s, id) ==> s[j].0 != id,
        id_index(s, id) < 0 ==> forall|j: int| 0 <= j < s.len() ==> s[j].0 != id,
    decreases s.len(),
{
    if s.len() > 0 && s[0].0 != id {
        lemma_id_index(s.drop_first(), id);
        assert forall|j: int| 1 <= j < s.len() implies s[j] == s.drop_first()[j - 1] by {}
    }
}

/// No two entries share an id.
pub open spec fn ids_unique<S>(s: Seq<(u64, S)>) -> bool {
    forall|i: int, j: int| 0 <= i < j < s.len() ==> s[i].0 != s[j].0
}

/// The entries after `id` was registered with `x`: an existing entry for `id`
/// takes the new value in place, otherwise the entry joins at the end.
pub open spec fn registered<S>(s: Seq<(u64, S)>, id: u64, x: S) -> Seq<(u64, S)> {
    let k = id_index(s, id);
    if k >= 0 {
        s.update(k, (id, x))
    } else {
        s.push((id, x))
    }
}

/// The entries after the entry for `id`, if any, was taken out.
pub open spec fn unregistered<S>(s: Seq<(u64, S)>, id: u64) -> Seq<(u64, S)> {
    let k = id_index(s, id);
    if k >= 0 {
        s.remove(k)
    } else {
        s
    }
}

/// The trades sent to a terminal that still wait for its acknowledgement,
/// each with the channel that the acknowledgement is handed to, in the order
/// in which they were registered.
pub struct PendingAcks<S> {
    entries: Vec<(u64, S)>,
}

impl<S> PendingAcks<S> {
    #[verifier::type_invariant]
    spec fn inv(self) -> bool {
        ids_unique(self.entries@)
    }

    /// The waiting trades with their channels, oldest first.
    pub closed spec fn view(&self) -> Seq<(u64, S)> {
        self.entries@
    }

    /// Nothing waits.
    pub fn new() -> (p: Self)
        ensures
            p.view() == Seq::<(u64, S)>::empty(),
            ids_unique(p.view()),
    {
        PendingAcks { entries: Vec::new() }
    }

    /// Number of waiting trades.
    pub fn len(&self) -> (n: usize)
        ensures
            n == self.view().len(),
    {
        self.entries.len()
    }

    fn index_of(&self, id: u64) -> (k: Option<usize>)
        ensures
            match k {
                Some(i) => i == id_index(self.view(), id),
                None => id_index(self.view(), id) < 0,
            },
    {
        let mut i: usize = 0;
        while i < self.entries.len()
            invariant
                i <= self.entries.len(),
                forall|j: int| 0 <= j < i ==> self.entries@[j].0 != id,
            decreases self.entries.len() - i,
        {
            if self.entries[i].0 == id {
                proof {
                    lemma_id_index(self.entries@, id);
                }
                return Some(i);
            }
            i += 1;
        }
        proof {
            lemma_id_index(self.entries@, id);
        }
        None
    }

    /// Whether a trade with this id waits.
    pub fn contains(&self, id: u64) -> (b: bool)
        ensures
            b == (id_index(self.view(), id) >= 0),
    {
        self.index_of(id).is_some()
    }

    /// Registers the channel that the acknowledgement of trade `id` goes to;
    /// a trade registered again keeps its place and takes the new channel.
    pub fn register(&mut self, id: u64, sender: S)
        ensures
            final(self).view() == registered(old(self).view(), id, sender),
            ids_unique(final(self).view()),
    {
        proof {
            use_type_invariant(&*self);
            lemma_id_index(self.entries@, id);
        }
        match self.index_of(id) {
            Some(k) => {
                let mut entries: Vec<(u64, S)> = Vec::new();
                std::mem::swap(&mut entries, &mut self.entries);
                entries.set(k, (id, sender));
                self.entries = entries;
            },
            None => {
                let mut entries: Vec<(u64, S)> = Vec::new();
                std::mem::swap(&mut entries, &mut self.entries);
                entries.push((id, sender));
                self.entries = entries;
            },
        }
    }

    /// Takes out the entry for trade `id` and gives back its channel.
    pub fn remove(&mut self, id: u64) -> (r: Option<S>)
        ensures
            final(self).view() == unregistered(old(self).view(), id),
            id_index(old(self).view(), id) >= 0 ==> r == Some(
                old(self).view()[id_index(old(self).view(), id)].1,
            ),
            id_index(old(self).view(), id) < 0 ==> r is None,
            ids_unique(final(self).view()),
    {
        proof {
            use_type_invariant(&*self);
            lemma_id_index(self.entries@, id);
        }
        match self.index_of(id) {
            Some(k) => {
                let mut entries: Vec<(u64, S)> = Vec::new();
                std::mem::swap(&mut entries, &mut self.entries);
                let (_, s) = entries.remove(k);
                self.entries = entries;
                Some(s)
            },
            None => None,
        }
    }

    /// The channel of the trade that has waited longest, which an incoming
    /// acknowledgement is handed to; `None` when nothing waits.
    pub fn oldest(&self) -> (r: Option<&S>)
        ensures
            self.view().len() == 0 ==> r is None,
            self.view().len() > 0 ==> r == Some(&self.view()[0].1),
    {
        if self.entries.len() == 0 {
            None
        } else {
            Some(&self.entries[0].1)
        }
    }
}

/// Registering a trade that was not waiting and then taking it out leaves the
/// waiting trades as they were.
pub proof fn lemma_register_remove<S>(s: Seq<(u64, S)>, id: u64, x: S)
    requires
        id_index(s, id) < 0,
    ensures
        unregistered(registered(s, id, x), id) == s,
{
    lemma_id_index(s, id);
    let t = s.push((id, x));
    lemma_id_index(t, id);
    let k = id_index(t, id);
    if k < 0 {
        assert(t[s.len() as int].0 == id);
    } else if k < s.len() {
        assert(t[k] == s[k]);
    }
    assert(k == s.len());
    assert(t.remove(s.len() as int) =~= s);
}

} // verus!
