//! The decisions of the message loop. The caller fetches each message from
//! the platform queue, asks what to do with it, and does it.
use vstd::prelude::*;
use crate::events::WM_QUIT;

verus! {

#[derive(Clone, Copy, Debug, PartialEq, Eq, Structural)]
pub enum LoopAction {
    /// Translate the message and deliver it to its window.
    Dispatch,
    /// Leave the loop.
    Stop,
}

/// The message loop: it runs until the quit signal is fetched.
pub struct EventLoop {
    quit: bool,
}

/// The number of messages of `queue` before the first quit signal, or all
/// of them where there is none.
pub open spec fn before_quit(queue: Seq<u32>) -> nat
    decreases queue.len(),
{
    if queue.len() == 0 {
        0
    } else if queue[0] == WM_QUIT {
        0
    } else {
        1 + before_quit(queue.drop_first())
    }
}

impl EventLoop {
    pub closed spec fn stopped(&self) -> bool {
        self.quit
    }

    pub fn new() -> (r: EventLoop)
        ensures
            !r.stopped(),
    {
        EventLoop { quit: false }
    }

    pub fn is_stopped(&self) -> (r: bool)
        ensures
            r == self.stopped(),
    {
        self.quit
    }

    /// What to do with the fetched message `msg`: the quit signal stops the
    /// loop, and once stopped it stays stopped, whatever comes next.
    pub fn step(&mut self, msg: u32) -> (r: LoopAction)
        ensures
            final(self).stopped() == (old(self).stopped() || msg == WM_QUIT),
            r == (if final(self).stopped() { LoopAction::Stop } else { LoopAction::Dispatch }),
    {
        if self.quit || msg == WM_QUIT {
            self.quit = true;
            LoopAction::Stop
        } else {
            LoopAction::Dispatch
        }
    }

    /// Runs the loop over the queued messages `queue`: the messages that it
    /// dispatches, in order. It dispatches nothing from the quit signal on.
    pub fn run(&mut self, queue: &Vec<u32>) -> (dispatched: Vec<u32>)
        requires
            !old(self).stopped(),
        ensures
            dispatched@ == queue@.take(before_quit(queue@) as int),
            final(self).stopped() == (before_quit(queue@) < queue@.len()),
    {
        let mut out: Vec<u32> = Vec::new();
        let mut i: usize = 0;
        while i < queue.len()
            invariant
                !self.stopped(),
                i <= queue@.len(),
                out@ == queue@.take(i as int),
                forall|k: int| 0 <= k < i ==> queue@[k] != WM_QUIT,
            decreases queue@.len() - i,
        {
            let m = queue[i];
            match self.step(m) {
                LoopAction::Stop => {
                    proof { lemma_before_quit(queue@, i as int); }
                    return out;
                },
                LoopAction::Dispatch => {
                    out.push(m);
                    assert(out@ =~= queue@.take(i + 1));
                },
            }
            i = i + 1;
        }
        proof { lemma_before_quit(queue@, i as int); }
        assert(queue@.take(i as int) =~= queue@);
        out
    }
}

proof fn lemma_before_quit(queue: Seq<u32>, i: int)
    requires
        0 <= i <= queue.len(),
        forall|k: int| 0 <= k < i ==> queue[k] != WM_QUIT,
        i == queue.len() || queue[i] == WM_QUIT,
    ensures
        before_quit(queue) == i,
    decreases queue.len(),
{
    if queue.len() > 0 && i > 0 {
        assert forall|k: int| 0 <= k < i - 1 implies queue.drop_first()[k] != WM_QUIT by {
            assert(queue.drop_first()[k] == queue[k + 1]);
        }
        lemma_before_quit(queue.drop_first(), i - 1);
    }
}

/// After the quit signal no message is dispatched: every message that the
/// loop dispatches from `queue` comes before the first quit signal.
pub proof fn lemma_nothing_after_quit(queue: Seq<u32>, i: int)
    requires
        0 <= i < queue.len(),
        queue[i] == WM_QUIT,
    ensures
        before_quit(queue) <= i,
    decreases queue.len(),
{
    if i > 0 && queue[0] != WM_QUIT {
        assert(queue.drop_first()[i - 1] == queue[i]);
        lemma_nothing_after_quit(queue.drop_first(), i - 1);
    }
}

} // verus!
