use vstd::prelude::*;
use crate::frame::{drain_messages, drain_spec, lemma_drain_exits_iff};
use crate::messages::{ThreadMessage, Viewport};

verus! {

/// A model of the controller, the one-directional control channel, and
/// the render thread it drives, advanced one frame at a time.
///
/// The owning thread sees only `send_message` and `stop`; the render
/// thread's side is `run_frame`, which drains the queue without blocking
/// and then draws at most one frame. The channel stays open exactly as
/// long as the render loop runs: once the loop has terminated, sending
/// reports the benign channel-closed condition and changes nothing.
pub struct RenderSession {
    /// Control messages sent but not yet drained, in send order.
    pub queue: Vec<ThreadMessage>,
    /// Whether the render loop is still running (the channel's receiving
    /// end still exists).
    pub running: bool,
    /// The viewport the next draw uses.
    pub viewport: Viewport,
    /// How many frames have been drawn and presented.
    pub frames_drawn: u64,
}

impl RenderSession {
    /// Spawns the modelled render thread: loop running, queue empty, no
    /// frame drawn yet, drawing into the given initial viewport.
    pub fn new(initial: Viewport) -> (s: Self)
        ensures
            s.running,
            s.queue@ =~= Seq::<ThreadMessage>::empty(),
            s.viewport == initial,
            s.frames_drawn == 0,
    {
        RenderSession { queue: Vec::new(), running: true, viewport: initial, frames_drawn: 0 }
    }

    /// Enqueues a control message without blocking. Fails only when the
    /// render loop has already terminated and the channel's receiving end
    /// is gone; the rejected message is handed back and nothing changes.
    /// That failure is a normal shutdown race, never a crash.
    pub fn send_message(&mut self, message: ThreadMessage) -> (r: Result<(), ThreadMessage>)
        ensures
            old(self).running ==> r is Ok && final(self).queue@ == old(self).queue@.push(message),
            !old(self).running ==> r == Err::<(), ThreadMessage>(message) && final(self).queue@
                == old(self).queue@,
            final(self).running == old(self).running,
            final(self).viewport == old(self).viewport,
            final(self).frames_drawn == old(self).frames_drawn,
    {
        if self.running {
            self.queue.push(message);
            Ok(())
        } else {
            Err(message)
        }
    }

    /// One iteration of the render loop: drain every queued message in
    /// send order, then either terminate (an `Exit` was drained; the
    /// messages behind it are discarded and no further frame is drawn) or
    /// draw and present one frame into the possibly-resized viewport.
    pub fn run_frame(&mut self)
        requires
            old(self).running,
            old(self).frames_drawn < u64::MAX,
        ensures
            final(self).queue@ =~= Seq::<ThreadMessage>::empty(),
            final(self).viewport == drain_spec(old(self).queue@, old(self).viewport).1,
            final(self).running == !drain_spec(old(self).queue@, old(self).viewport).0,
            final(self).frames_drawn == if drain_spec(old(self).queue@, old(self).viewport).0 {
                old(self).frames_drawn as int
            } else {
                old(self).frames_drawn + 1
            },
    {
        let (exit, v) = drain_messages(&self.queue, self.viewport);
        self.queue = Vec::new();
        self.viewport = v;
        if exit {
            self.running = false;
        } else {
            self.frames_drawn = self.frames_drawn + 1;
        }
    }

    /// Requests exit and waits for the render loop to terminate. Consumes
    /// the session: nothing can be asked of the controller afterwards but
    /// inspecting the terminal state. Always returns, the loop having
    /// drained at most the messages already queued plus the `Exit` and
    /// drawn no further frame.
    pub fn stop(self) -> (s: Self)
        requires
            self.frames_drawn < u64::MAX,
        ensures
            !s.running,
            s.queue@ =~= Seq::<ThreadMessage>::empty(),
            s.frames_drawn == self.frames_drawn,
            self.running ==> s.viewport == drain_spec(
                self.queue@.push(ThreadMessage::Exit),
                self.viewport,
            ).1,
            !self.running ==> s.viewport == self.viewport,
    {
        let mut s = self;
        if s.running {
            let _ = s.send_message(ThreadMessage::Exit);
            proof {
                let q = s.queue@;
                lemma_drain_exits_iff(q, s.viewport);
                assert(q[q.len() - 1] is Exit);
            }
            s.run_frame();
        } else {
            // The loop is already gone; the join observes a finished
            // thread and the queue's receiving end has discarded what
            // was left.
            s.queue = Vec::new();
        }
        s
    }
}

} // verus!
