use vstd::prelude::*;

verus! {

/// A destination for formatted log lines.
pub trait Writable {
    /// The lines that the destination holds, oldest first.
    spec fn lines(&self) -> Seq<Seq<char>>;

    /// Adds one line at the end.
    fn write_line(&mut self, message: &str)
        ensures
            final(self).lines() == old(self).lines().push(message@),
    ;

    /// Discards every line held.
    fn flush(&mut self)
        ensures
            final(self).lines() == Seq::<Seq<char>>::empty(),
    ;
}

/// Appends `line` to a destination that the caller holds; `None` leaves it
/// unchanged.
pub fn deliver<W: Writable>(out: &mut W, line: Option<String>)
    ensures
        line matches Some(l) ==> final(out).lines() == old(out).lines().push(l@),
        line is None ==> *final(out) == *old(out),
{
    match line {
        Some(l) => out.write_line(l.as_str()),
        None => {},
    }
}

/// The last `n` elements of `s` (all of them when `s` is shorter), in order.
pub open spec fn last_n<A>(s: Seq<A>, n: nat) -> Seq<A> {
    if s.len() <= n {
        s
    } else {
        s.subrange(s.len() - n, s.len() as int)
    }
}

/// An ordered, append-only history of display lines; it is only ever
/// extended at the end or emptied as a whole.
pub struct LineHistory {
    lines: Vec<String>,
}

impl View for LineHistory {
    type V = Seq<Seq<char>>;

    closed spec fn view(&self) -> Seq<Seq<char>> {
        self.lines@.map_values(|l: String| l@)
    }
}

impl LineHistory {
    /// An empty history.
    pub fn new() -> (r: LineHistory)
        ensures
            r@ == Seq::<Seq<char>>::empty(),
    {
        let r = LineHistory { lines: Vec::new() };
        assert(r@ =~= Seq::<Seq<char>>::empty());
        r
    }

    /// Number of lines held.
    pub fn len(&self) -> (r: usize)
        ensures
            r == self@.len(),
    {
        self.lines.len()
    }

    /// Whether no line is held.
    pub fn is_empty(&self) -> (r: bool)
        ensures
            r == (self@.len() == 0),
    {
        self.lines.len() == 0
    }

    /// Adds `line` at the end.
    pub fn append(&mut self, line: String)
        ensures
            final(self)@ == old(self)@.push(line@),
    {
        self.lines.push(line);
        assert(self@ =~= old(self)@.push(line@));
    }

    /// Removes every line.
    pub fn clear(&mut self)
        ensures
            final(self)@ == Seq::<Seq<char>>::empty(),
    {
        self.lines.clear();
        assert(self@ =~= Seq::<Seq<char>>::empty());
    }

    /// Copies of the most recent `max_count` lines, oldest first; all lines
    /// when fewer are held.
    pub fn tail(&self, max_count: usize) -> (r: Vec<String>)
        ensures
            r@.map_values(|l: String| l@) == last_n(self@, max_count as nat),
    {
        let len = self.lines.len();
        let start: usize = if len <= max_count { 0 } else { len - max_count };
        let mut r: Vec<String> = Vec::new();
        let mut i: usize = start;
        while i < len
            invariant
                start <= i <= len,
                len == self.lines@.len(),
                r@.len() == i - start,
                forall|k: int| 0 <= k < r@.len() ==> r@[k]@ == self.lines@[start + k]@,
            decreases len - i,
        {
            let line = self.lines[i].clone();
            r.push(line);
            i = i + 1;
        }
        assert(r@.map_values(|l: String| l@) =~= last_n(self@, max_count as nat));
        r
    }
}

impl Writable for LineHistory {
    open spec fn lines(&self) -> Seq<Seq<char>> {
        self@
    }

    fn write_line(&mut self, message: &str) {
        self.append(String::from_str(message));
    }

    fn flush(&mut self) {
        self.clear();
    }
}

/// After `k` lines were appended to an empty history, its tail of `n` lines
/// holds `min(k, n)` lines: all of them when `k <= n`, else the last `n`,
/// the earliest `k - n` dropped; either way in their original order.
pub proof fn lemma_tail_window(appended: Seq<Seq<char>>, n: nat)
    ensures
        ({
            let k = appended.len();
            let w = last_n(Seq::<Seq<char>>::empty() + appended, n);
            &&& k <= n ==> w == appended
            &&& k > n ==> w.len() == n
            &&& k > n ==> forall|i: int| 0 <= i < n ==> #[trigger] w[i] == appended[(k - n) + i]
        }),
{
    assert(Seq::<Seq<char>>::empty() + appended =~= appended);
}

/// A history that was just cleared has an empty tail, whatever its length.
pub proof fn lemma_tail_after_clear(n: nat)
    ensures
        last_n(Seq::<Seq<char>>::empty(), n) == Seq::<Seq<char>>::empty(),
{
}

} // verus!
