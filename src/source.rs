//! Producers of streamed items, each described by a spec step function that
//! says what one poll returns and what state follows it.
use vstd::prelude::*;

verus! {

/// What one poll of a producer gives.
#[derive(Debug, PartialEq, Eq)]
pub enum Next<I> {
    /// An item is ready.
    Item(I),
    /// The producer is exhausted.
    End,
    /// No item is ready yet; poll again later.
    Pending,
}

/// A producer of items polled by a single consumer.
pub trait Producer: Sized {
    type Item;

    /// The outcome of one poll from this state, and the state after it.
    spec fn step(&self) -> (Next<Self::Item>, Self);

    /// Polls for the next item.
    fn poll_next(&mut self) -> (r: Next<Self::Item>)
        ensures
            (r, *final(self)) == old(self).step(),
    ;
}

/// The outcomes of `n` polls, in order, starting from `s`.
pub open spec fn outcomes<S: Producer>(s: S, n: nat) -> Seq<Next<S::Item>>
    decreases n,
{
    if n == 0 {
        Seq::empty()
    } else {
        seq![s.step().0] + outcomes(s.step().1, (n - 1) as nat)
    }
}

/// The state reached after `n` polls starting from `s`.
pub open spec fn after<S: Producer>(s: S, n: nat) -> S
    decreases n,
{
    if n == 0 {
        s
    } else {
        after(s.step().1, (n - 1) as nat)
    }
}

/// The values of the window that starts at `x`.
pub open spec fn window_values(x: u32) -> Seq<u32> {
    seq![x, (x + 1) as u32, (x + 2) as u32]
}

/// Three consecutive counts, `start`, `start + 1` and `start + 2`.
#[derive(Clone, Copy, Debug, PartialEq, Eq, Structural)]
pub struct Window {
    start: u32,
}

impl Window {
    #[verifier::type_invariant]
    spec fn fits(&self) -> bool {
        self.start <= u32::MAX - 2
    }

    /// The first value of the window.
    pub closed spec fn start_spec(&self) -> u32 {
        self.start
    }

    /// The first value of the window.
    pub fn start(&self) -> (r: u32)
        ensures
            r == self.start_spec(),
    {
        self.start
    }

    /// The window's values, in increasing order.
    pub fn values(&self) -> (r: Vec<u32>)
        ensures
            r@ == window_values(self.start_spec()),
    {
        proof {
            use_type_invariant(self);
        }
        let mut v: Vec<u32> = Vec::new();
        v.push(self.start);
        v.push(self.start + 1);
        v.push(self.start + 2);
        v
    }
}

/// An endless count, handed out in windows of three consecutive values
/// (`[0, 1, 2]`, `[3, 4, 5]`, ...). It ends only where the next window would
/// leave the range of `u32`.
pub struct CountingWindows {
    next: Option<u32>,
}

impl CountingWindows {
    /// The first value of the next window, or `None` once exhausted.
    pub closed spec fn next_start(&self) -> Option<u32> {
        self.next
    }

    /// A count that starts at zero.
    pub fn new() -> (r: Self)
        ensures
            r.next_start() == Some(0u32),
    {
        CountingWindows { next: Some(0) }
    }

    /// A count whose first window starts at `x`.
    pub fn starting_at(x: u32) -> (r: Self)
        ensures
            r.next_start() == Some(x),
    {
        CountingWindows { next: Some(x) }
    }
}

/// One poll of a count at `x` gives the window starting at `x` while that
/// fits in `u32`, and the count moves on by three or is exhausted; an
/// exhausted count, or one past the last window, ends.
pub proof fn lemma_counting_step(c: CountingWindows)
    ensures
        match c.next_start() {
            Some(x) => if x <= u32::MAX - 2 {
                &&& c.step().0 is Item
                &&& c.step().0->Item_0.start_spec() == x
                &&& c.step().1.next_start() == if x <= u32::MAX - 3 {
                    Some((x + 3) as u32)
                } else {
                    None::<u32>
                }
            } else {
                c.step().0 is End && c.step().1.next_start() is None
            },
            None => c.step().0 is End && c.step().1.next_start() is None,
        },
{
}

/// From a count at `x`, every one of `n` polls whose window still fits in
/// `u32` gives a window, the `i`-th starting at `x + 3 * i`: the count never
/// ends on its own before that.
pub proof fn lemma_counting_outcomes(c: CountingWindows, n: nat)
    requires
        c.next_start() is Some,
        c.next_start()->Some_0 + 3 * n <= u32::MAX + 1,
    ensures
        outcomes(c, n).len() == n,
        forall|i: int|
            0 <= i < n ==> {
                &&& #[trigger] outcomes(c, n)[i] is Item
                &&& outcomes(c, n)[i]->Item_0.start_spec() == c.next_start()->Some_0 + 3 * i
            },
    decreases n,
{
    if n > 0 {
        lemma_counting_step(c);
        let rest = c.step().1;
        if n > 1 {
            lemma_counting_outcomes(rest, (n - 1) as nat);
            assert forall|i: int| 0 < i < n implies #[trigger] outcomes(c, n)[i] == outcomes(
                rest,
                (n - 1) as nat,
            )[i - 1] by {}
        }
    }
}

impl Producer for CountingWindows {
    type Item = Window;

    /// From `x`, a window starting at `x` while it fits in `u32`; the count
    /// then moves on by three, or is exhausted when that would overflow.
    closed spec fn step(&self) -> (Next<Window>, Self) {
        match self.next_start() {
            Some(x) => if x <= u32::MAX - 2 {
                (
                    Next::Item(Window { start: x }),
                    CountingWindows {
                        next: if x <= u32::MAX - 3 { Some((x + 3) as u32) } else { None },
                    },
                )
            } else {
                (Next::End, CountingWindows { next: None })
            },
            None => (Next::End, CountingWindows { next: None }),
        }
    }

    fn poll_next(&mut self) -> (r: Next<Window>) {
        match self.next {
            Some(x) => {
                if x <= u32::MAX - 2 {
                    self.next = if x <= u32::MAX - 3 { Some(x + 3) } else { None };
                    Next::Item(Window { start: x })
                } else {
                    self.next = None;
                    Next::End
                }
            },
            None => Next::End,
        }
    }
}

/// A finite producer that hands out the items of a vector in order and then
/// ends.
pub struct Items<T> {
    items: Vec<T>,
    pos: usize,
}

impl<T: Copy> Items<T> {
    /// The items not handed out yet, in order.
    pub closed spec fn remaining(&self) -> Seq<T> {
        self.items@.subrange(self.pos as int, self.items@.len() as int)
    }

    /// The position reached, within bounds.
    pub closed spec fn wf(&self) -> bool {
        self.pos <= self.items@.len() <= usize::MAX
    }

    /// A producer of `items`, first to last.
    pub fn new(items: Vec<T>) -> (r: Self)
        ensures
            r.wf(),
            r.remaining() == items@,
    {
        let _n = items.len();
        let r = Items { items, pos: 0 };
        assert(r.remaining() =~= r.items@);
        r
    }
}

/// A well-formed producer of items hands out its first remaining item and
/// stays well-formed with the rest; with none left it ends.
pub proof fn lemma_items_step<T: Copy>(s: Items<T>)
    requires
        s.wf(),
    ensures
        s.step().1.wf(),
        s.remaining().len() == 0 ==> s.step().0 is End && s.step().1.remaining() == s.remaining(),
        s.remaining().len() > 0 ==> {
            &&& s.step().0 == Next::Item(s.remaining()[0])
            &&& s.step().1.remaining() == s.remaining().drop_first()
        },
{
    if s.remaining().len() > 0 {
        assert(s.step().1.remaining() =~= s.remaining().drop_first());
    }
}

impl<T: Copy> Producer for Items<T> {
    type Item = T;

    closed spec fn step(&self) -> (Next<T>, Self) {
        if self.pos < self.items@.len() {
            (Next::Item(self.items@[self.pos as int]), Items { items: self.items, pos: (self.pos + 1) as usize })
        } else {
            (Next::End, *self)
        }
    }

    fn poll_next(&mut self) -> (r: Next<T>) {
        if self.pos < self.items.len() {
            let item = self.items[self.pos];
            self.pos = self.pos + 1;
            Next::Item(item)
        } else {
            Next::End
        }
    }
}

} // verus!
