use vstd::prelude::*;

verus! {

/// Where the console's bytes go: a terminal, or a capture of them.
pub trait SuperConsoleOutput: Sized {
    /// Whether a render may produce output now.
    fn should_render(&mut self) -> bool;

    /// Takes one finished buffer of bytes.
    fn output(&mut self, buffer: Vec<u8>) -> Result<(), anyhow::Error>;

    /// Tears the output down, once.
    fn finalize(self) -> Result<(), anyhow::Error>;
}

/// An output together with the record of every answer it gave to
/// `should_render` and every buffer it was handed. The record changes only
/// through the methods below, each of which makes the call it records.
pub struct Recorded<O: SuperConsoleOutput> {
    inner: O,
    answers: Ghost<Seq<bool>>,
    taken: Ghost<Seq<Seq<u8>>>,
}

impl<O: SuperConsoleOutput> Recorded<O> {
    /// The output itself.
    pub closed spec fn inner(&self) -> O {
        self.inner
    }

    /// Every answer of `should_render`, in order.
    pub closed spec fn answers(&self) -> Seq<bool> {
        self.answers@
    }

    /// Every buffer handed to `output`, in order.
    pub closed spec fn taken(&self) -> Seq<Seq<u8>> {
        self.taken@
    }

    pub fn new(inner: O) -> (r: Self)
        ensures
            r.inner() == inner,
            r.answers() == Seq::<bool>::empty(),
            r.taken() == Seq::<Seq<u8>>::empty(),
    {
        Recorded { inner, answers: Ghost(Seq::empty()), taken: Ghost(Seq::empty()) }
    }

    /// Asks the output whether it may render.
    pub fn should_render(&mut self) -> (r: bool)
        ensures
            final(self).answers() == old(self).answers().push(r),
            final(self).taken() == old(self).taken(),
    {
        let r = self.inner.should_render();
        self.answers = Ghost(self.answers@.push(r));
        r
    }

    /// Hands the output one buffer, and returns what it answered.
    pub fn output(&mut self, buffer: Vec<u8>) -> (r: Result<(), anyhow::Error>)
        ensures
            final(self).taken() == old(self).taken().push(buffer@),
            final(self).answers() == old(self).answers(),
    {
        self.taken = Ghost(self.taken@.push(buffer@));
        self.inner.output(buffer)
    }

    /// Tears the output down, and returns what it answered.
    pub fn finalize(self) -> (r: Result<(), anyhow::Error>) {
        self.inner.finalize()
    }
}

} // verus!
