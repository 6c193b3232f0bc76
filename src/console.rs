//! The shared console buffer: an append-only text log made of whole lines.
use vstd::prelude::*;
use vstd::string::StringExecFns;

verus! {

/// Where a line of the console came from.
#[derive(Clone, Copy, Debug, PartialEq, Eq, Structural)]
pub enum Source {
    Stdout,
    Stderr,
    Echo,
}

/// One line followed by its separator.
pub open spec fn terminated(line: Seq<char>) -> Seq<char> {
    line.push('\n')
}

/// The text made by writing each line followed by one separator.
pub open spec fn join_lines(lines: Seq<Seq<char>>) -> Seq<char>
    decreases lines.len(),
{
    if lines.len() == 0 {
        Seq::empty()
    } else {
        join_lines(lines.drop_last()) + terminated(lines.last())
    }
}

/// A line holds no separator of its own.
pub open spec fn is_clean(line: Seq<char>) -> bool {
    !line.contains('\n')
}

pub open spec fn all_clean(lines: Seq<Seq<char>>) -> bool {
    forall|i: int| 0 <= i < lines.len() ==> is_clean(#[trigger] lines[i])
}

/// The texts of a sequence of entries, in order.
pub open spec fn texts(entries: Seq<(Source, Seq<char>)>) -> Seq<Seq<char>> {
    entries.map_values(|e: (Source, Seq<char>)| e.1)
}

/// The lines that one source contributed, in the order they were appended.
pub open spec fn lines_from(entries: Seq<(Source, Seq<char>)>, src: Source) -> Seq<Seq<char>>
    decreases entries.len(),
{
    if entries.len() == 0 {
        Seq::empty()
    } else if entries.last().0 == src {
        lines_from(entries.drop_last(), src).push(entries.last().1)
    } else {
        lines_from(entries.drop_last(), src)
    }
}

/// The views of a sequence of strings.
pub open spec fn string_views(v: Seq<String>) -> Seq<Seq<char>> {
    v.map_values(|s: String| s@)
}

/// The console text: every appended line, each with its separator, nothing else.
pub struct ConsoleBuffer {
    text: String,
    entries: Ghost<Seq<(Source, Seq<char>)>>,
}

impl View for ConsoleBuffer {
    type V = Seq<(Source, Seq<char>)>;

    closed spec fn view(&self) -> Seq<(Source, Seq<char>)> {
        self.entries@
    }
}

impl ConsoleBuffer {
    /// The text that readers see.
    pub closed spec fn text_view(&self) -> Seq<char> {
        self.text@
    }

    #[verifier::type_invariant]
    spec fn wf(&self) -> bool {
        self.text@ == join_lines(texts(self.entries@))
    }

    pub fn new() -> (r: ConsoleBuffer)
        ensures
            r@ == Seq::<(Source, Seq<char>)>::empty(),
            r.text_view() == Seq::<char>::empty(),
    {
        let r = ConsoleBuffer { text: String::new(), entries: Ghost(Seq::empty()) };
        assert(texts(r.entries@) =~= Seq::<Seq<char>>::empty());
        r
    }

    /// Appends one whole line and its separator in a single step.
    pub fn append_line(&mut self, source: Source, line: &str)
        ensures
            final(self)@ == old(self)@.push((source, line@)),
            final(self).text_view() == old(self).text_view() + terminated(line@),
    {
        proof {
            use_type_invariant(&*self);
        }
        let ghost before = self.entries@;
        let mut taken = ConsoleBuffer::new();
        std::mem::swap(self, &mut taken);
        let ConsoleBuffer { mut text, .. } = taken;
        text.append(line);
        text.append("\n");
        proof {
            reveal_strlit("\n");
            assert(texts(before.push((source, line@))).drop_last() =~= texts(before));
            assert(old(self).text@ + line@ + "\n"@ =~= old(self).text@ + terminated(line@));
        }
        *self = ConsoleBuffer { text, entries: Ghost(before.push((source, line@))) };
    }

    /// Shows a command the user typed, marked with "> ". Nothing is sent to
    /// the process.
    pub fn echo_command(&mut self, command: &str)
        ensures
            final(self)@ == old(self)@.push((Source::Echo, echo_text(command@))),
            final(self).text_view() == old(self).text_view() + terminated(echo_text(command@)),
    {
        let mut line = String::from_str("> ");
        line.append(command);
        proof {
            reveal_strlit("> ");
            assert(line@ =~= echo_text(command@));
        }
        self.append_line(Source::Echo, line.as_str());
    }

    /// The text cut at each separator: the lines in the order they were
    /// appended.
    pub fn lines(&self) -> (r: Vec<String>)
        ensures
            join_lines(string_views(r@)) == self.text_view(),
            self.text_view() == join_lines(texts(self@)),
            all_clean(string_views(r@)),
            all_clean(texts(self@)) ==> string_views(r@) == texts(self@),
    {
        broadcast use vstd::string::group_string_axioms;

        proof {
            use_type_invariant(self);
        }
        let mut out: Vec<String> = Vec::new();
        let mut cur = String::new();
        let ghost full = self.text@;
        for c in it: self.text.as_str().chars()
            invariant
                it.seq() == full,
                full == self.text@,
                full == join_lines(texts(self.entries@)),
                join_lines(string_views(out@)) + cur@ == full.take(it.index() as int),
                all_clean(string_views(out@)),
                is_clean(cur@),
        {
            let ghost done = full.take(it.index() as int);
            assert(full.take(it.index() + 1) =~= done.push(c));
            if c == '\n' {
                let ghost prev = string_views(out@);
                out.push(cur);
                cur = String::new();
                proof {
                    assert(string_views(out@).drop_last() =~= prev);
                    assert(join_lines(string_views(out@)) =~= done.push(c));
                    assert forall|i: int| 0 <= i < string_views(out@).len() implies is_clean(
                        #[trigger] string_views(out@)[i],
                    ) by {
                        if i < prev.len() {
                            assert(string_views(out@)[i] == prev[i]);
                        }
                    }
                    assert(cur@ =~= Seq::<char>::empty());
                    assert(join_lines(string_views(out@)) + cur@ =~= done.push(c));
                }
            } else {
                let ghost before = cur@;
                push_char(&mut cur, c);
                proof {
                    assert(join_lines(string_views(out@)) + cur@ =~= done.push(c));
                    if cur@.contains('\n') {
                        let k = choose|k: int| 0 <= k < cur@.len() && cur@[k] == '\n';
                        if k < before.len() {
                            assert(before[k] == '\n');
                        }
                    }
                }
            }
        }
        proof {
            assert(full.take(full.len() as int) =~= full);
            lemma_join_ends(texts(self@));
            lemma_join_ends(string_views(out@));
            if cur@.len() > 0 {
                assert(full[full.len() - 1] == cur@[cur@.len() - 1]);
                assert(cur@.contains(cur@[cur@.len() - 1]));
            }
            assert(cur@ =~= Seq::<char>::empty());
            assert(join_lines(string_views(out@)) =~= full);
            if all_clean(texts(self@)) {
                lemma_join_injective(string_views(out@), texts(self@));
            }
        }
        out
    }

    /// A copy of the whole text.
    pub fn contents(&self) -> (r: String)
        ensures
            r@ == self.text_view(),
            r@ == join_lines(texts(self@)),
    {
        proof {
            use_type_invariant(self);
        }
        self.text.clone()
    }
}

/// Relies on String::push: the character is added at the end.
#[verifier::external_body]
fn push_char(s: &mut String, c: char)
    ensures
        final(s)@ == old(s)@.push(c),
{
    s.push(c)
}

/// An empty list of lines makes no text; any other ends with a separator.
pub proof fn lemma_join_ends(lines: Seq<Seq<char>>)
    ensures
        lines.len() == 0 ==> join_lines(lines) == Seq::<char>::empty(),
        lines.len() > 0 ==> join_lines(lines).len() > 0 && join_lines(lines).last() == '\n',
        join_lines(lines).len() >= lines.len(),
    decreases lines.len(),
{
    if lines.len() > 0 {
        lemma_join_ends(lines.drop_last());
    }
}

/// The text determines its lines: two lists of lines without separators
/// that give the same text are the same list.
pub proof fn lemma_join_injective(a: Seq<Seq<char>>, b: Seq<Seq<char>>)
    requires
        all_clean(a),
        all_clean(b),
        join_lines(a) == join_lines(b),
    ensures
        a == b,
    decreases a.len(),
{
    lemma_join_ends(a);
    lemma_join_ends(b);
    if a.len() == 0 || b.len() == 0 {
        assert(a =~= b);
    } else {
        let (pa, la) = (a.drop_last(), a.last());
        let (pb, lb) = (b.drop_last(), b.last());
        let (ja, jb) = (join_lines(pa), join_lines(pb));
        let t = join_lines(a);
        assert(is_clean(a[a.len() - 1]));
        assert(is_clean(b[b.len() - 1]));
        let s = t.drop_last();
        assert(s =~= ja + la);
        assert(s =~= jb + lb);
        lemma_join_ends(pa);
        lemma_join_ends(pb);
        if ja.len() < jb.len() {
            let k = jb.len() - 1;
            assert(s[k] == jb[k]);
            assert(s[k] == la[k - ja.len()]);
            assert(la.contains('\n'));
        } else if jb.len() < ja.len() {
            let k = ja.len() - 1;
            assert(s[k] == ja[k]);
            assert(s[k] == lb[k - jb.len()]);
            assert(lb.contains('\n'));
        }
        assert(ja =~= s.take(ja.len() as int));
        assert(jb =~= s.take(jb.len() as int));
        assert(la =~= s.skip(ja.len() as int));
        assert(lb =~= s.skip(jb.len() as int));
        assert(all_clean(pa));
        assert(all_clean(pb));
        lemma_join_injective(pa, pb);
        assert(a =~= pa.push(la));
        assert(b =~= pb.push(lb));
    }
}

/// The entries after one source writes the given lines, one after another.
pub open spec fn after_writes(
    entries: Seq<(Source, Seq<char>)>,
    src: Source,
    lines: Seq<Seq<char>>,
) -> Seq<(Source, Seq<char>)> {
    entries + lines.map_values(|l: Seq<char>| (src, l))
}

/// Lines that one source writes appear after what was there, in the order
/// written, each followed by exactly one separator, none lost or repeated.
pub proof fn lemma_stream_order(
    entries: Seq<(Source, Seq<char>)>,
    src: Source,
    lines: Seq<Seq<char>>,
)
    ensures
        lines_from(after_writes(entries, src, lines), src) == lines_from(entries, src) + lines,
        join_lines(texts(after_writes(entries, src, lines))) == join_lines(texts(entries))
            + join_lines(lines),
    decreases lines.len(),
{
    let all = after_writes(entries, src, lines);
    if lines.len() == 0 {
        assert(all =~= entries);
        assert(lines_from(entries, src) + lines =~= lines_from(entries, src));
        assert(join_lines(texts(entries)) + join_lines(lines) =~= join_lines(texts(entries)));
    } else {
        let prev = lines.drop_last();
        lemma_stream_order(entries, src, prev);
        let before = after_writes(entries, src, prev);
        assert(all.drop_last() =~= before);
        assert(all.last() == (src, lines.last()));
        assert(lines_from(entries, src) + lines =~= (lines_from(entries, src) + prev).push(
            lines.last(),
        ));
        assert(texts(all).drop_last() =~= texts(before));
        assert(texts(all).last() == lines.last());
        assert(join_lines(texts(entries)) + join_lines(lines) =~= join_lines(texts(entries))
            + join_lines(prev) + terminated(lines.last()));
    }
}

/// Each entry belongs to exactly one source.
pub proof fn lemma_sources_partition(entries: Seq<(Source, Seq<char>)>)
    ensures
        lines_from(entries, Source::Stdout).len() + lines_from(entries, Source::Stderr).len()
            + lines_from(entries, Source::Echo).len() == entries.len(),
    decreases entries.len(),
{
    if entries.len() > 0 {
        lemma_sources_partition(entries.drop_last());
    }
}

/// Whatever order the appends of the output drain, the error drain and the
/// command echo were serialised in, cutting the final text at its separators
/// gives back every appended line exactly once: as many lines as the three
/// sources wrote, and, tagged by source, each source's lines in its own order.
pub proof fn lemma_interleaving(
    entries: Seq<(Source, Seq<char>)>,
    out_lines: Seq<Seq<char>>,
    err_lines: Seq<Seq<char>>,
    echo_lines: Seq<Seq<char>>,
    cut: Seq<Seq<char>>,
)
    requires
        lines_from(entries, Source::Stdout) == out_lines,
        lines_from(entries, Source::Stderr) == err_lines,
        lines_from(entries, Source::Echo) == echo_lines,
        all_clean(texts(entries)),
        all_clean(cut),
        join_lines(cut) == join_lines(texts(entries)),
    ensures
        cut == texts(entries),
        cut.len() == out_lines.len() + err_lines.len() + echo_lines.len(),
{
    lemma_join_injective(cut, texts(entries));
    lemma_sources_partition(entries);
}

/// The line that echoes a user command.
pub open spec fn echo_text(command: Seq<char>) -> Seq<char> {
    seq!['>', ' '] + command
}

} // verus!
