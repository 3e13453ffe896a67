//! Effects that are put together before any of them is carried out.

use vstd::prelude::*;

verus! {

/// An effect that gives an `A` when it is applied: a function that is kept
/// until then. `F` is the type of that function.
pub struct IO<F>(F);

impl<A, F: FnOnce() -> A> IO<F> {
    /// Whether the effect can be applied: whether what the function demands
    /// holds.
    pub closed spec fn ready(&self) -> bool {
        call_requires(self.0, ())
    }

    /// Whether the effect, when applied, can give `a`.
    pub closed spec fn yields(&self, a: A) -> bool {
        call_ensures(self.0, (), a)
    }

    /// Returns a IO object with a function inside. Nothing is carried out.
    pub fn unit(a: F) -> (io: IO<F>)
        ensures
            io.ready() == call_requires(a, ()),
            forall|r: A| #[trigger] io.yields(r) == call_ensures(a, (), r),
    {
        IO(a)
    }

    /// Maps a `IO<A>` to `IO<B>` by applying a function to a contained
    /// function. Nothing is carried out: the effect that is returned, when
    /// applied, applies this one and hands what it gives to `b`.
    pub fn map<B, G: FnOnce(A) -> B>(self, b: G) -> (io: IO<impl FnOnce() -> B>)
        requires
            self.ready(),
            forall|a: A| #[trigger] self.yields(a) ==> call_requires(b, (a,)),
        ensures
            io.ready(),
            forall|r: B| #[trigger]
                io.yields(r) ==> exists|a: A| #[trigger] self.yields(a) && call_ensures(b, (a,), r),
    {
        let ghost before = self;
        let f = self.0;
        proof {
            assert forall|a: A| #[trigger] call_ensures(f, (), a) implies call_requires(
                b,
                (a,),
            ) by {
                assert(before.yields(a));
            }
        }
        let g = move || -> (r: B)
            requires
                call_requires(f, ()),
                forall|a: A| #[trigger] call_ensures(f, (), a) ==> call_requires(b, (a,)),
            ensures
                exists|a: A| #[trigger] call_ensures(f, (), a) && call_ensures(b, (a,), r),
            {
                let a = f();
                b(a)
            };
        let io = IO(g);
        proof {
            assert forall|r: B| #[trigger] io.yields(r) implies exists|a: A| #[trigger]
                before.yields(a) && call_ensures(b, (a,), r) by {
                let a = choose|a: A| #[trigger]
                    call_ensures(f, (), a) && call_ensures(b, (a,), r);
                assert(before.yields(a));
            }
        }
        io
    }

    /// Maps a `IO<A>` to `IO<B>` by applying a function that returns an
    /// effect of its own. Nothing is carried out: the effect that is
    /// returned, when applied, applies this one, hands what it gives to `b`
    /// and applies the effect that `b` returns.
    pub fn flat_map<B, H: FnOnce() -> B, G: FnOnce(A) -> IO<H>>(self, b: G) -> (io: IO<
        impl FnOnce() -> B,
    >)
        requires
            self.ready(),
            forall|a: A| #[trigger] self.yields(a) ==> call_requires(b, (a,)),
            forall|a: A, next: IO<H>| #[trigger] call_ensures(b, (a,), next) ==> next.ready(),
        ensures
            io.ready(),
            forall|r: B| #[trigger]
                io.yields(r) ==> exists|a: A, next: IO<H>|
                    self.yields(a) && #[trigger] call_ensures(b, (a,), next) && next.yields(r),
    {
        let ghost before = self;
        let f = self.0;
        proof {
            assert forall|a: A| #[trigger] call_ensures(f, (), a) implies call_requires(
                b,
                (a,),
            ) by {
                assert(before.yields(a));
            }
            assert forall|a: A, next: IO<H>| #[trigger]
                call_ensures(b, (a,), next) implies call_requires(next.0, ()) by {
                assert(next.ready());
            }
        }
        let g = move || -> (r: B)
            requires
                call_requires(f, ()),
                forall|a: A| #[trigger] call_ensures(f, (), a) ==> call_requires(b, (a,)),
                forall|a: A, next: IO<H>| #[trigger]
                    call_ensures(b, (a,), next) ==> call_requires(next.0, ()),
            ensures
                exists|a: A, next: IO<H>|
                    call_ensures(f, (), a) && #[trigger] call_ensures(b, (a,), next)
                        && call_ensures(next.0, (), r),
            {
                let a = f();
                let next = b(a);
                (next.0)()
            };
        let io = IO(g);
        proof {
            assert forall|r: B| #[trigger] io.yields(r) implies exists|a: A, next: IO<H>|
                before.yields(a) && #[trigger] call_ensures(b, (a,), next) && next.yields(
                    r,
                ) by {
                let (a, next) = choose|a: A, next: IO<H>|
                    call_ensures(f, (), a) && #[trigger] call_ensures(b, (a,), next)
                        && call_ensures(next.0, (), r);
                assert(before.yields(a) && call_ensures(b, (a,), next) && next.yields(r));
            }
        }
        io
    }

    /// Apply wrapped effects: calls the function that is kept and returns
    /// what it gives.
    pub fn apply(self) -> (r: A)
        requires
            self.ready(),
        ensures
            self.yields(r),
    {
        (self.0)()
    }
}

} // verus!
