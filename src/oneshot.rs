use vstd::prelude::*;
use crate::error::Error;
use crate::session::{Cipher, update_capacity};
use crate::types::{CipherInfo, CipherMode, Operation};

verus! {

/// What the engine is asked to do next during a one-shot encryption or
/// decryption.
#[derive(PartialEq, Eq, Structural, Clone, Copy, Debug)]
pub enum Action {
    /// Reset the engine's stream.
    Reset,
    /// Feed input bytes `[input_start, input_end)` and write the result to
    /// output bytes from `output_start` on.
    Update { input_start: usize, input_end: usize, output_start: usize },
    /// Flush the stream to output bytes from `output_start` on.
    Finish { output_start: usize },
    /// The run is over: this many output bytes were written.
    Done(usize),
    /// The run is over with this error.
    Fail(Error),
}

#[derive(PartialEq, Eq, Structural, Clone, Copy, Debug)]
pub enum Stage {
    Resetting,
    Updating,
    Finishing,
    Over,
}

/// The progress of one one-shot run over `in_len` bytes of input into
/// `out_len` bytes of output.
#[derive(PartialEq, Eq, Structural, Clone, Copy, Debug)]
pub struct CryptoRun {
    pub in_len: usize,
    pub out_len: usize,
    /// Input bytes handed to the engine and answered.
    pub consumed: usize,
    /// Output bytes the engine reported as written.
    pub written: usize,
    /// End of the input range of the update in flight.
    pub pending_end: usize,
    pub stage: Stage,
}

impl CryptoRun {
    pub open spec fn wf(self) -> bool {
        &&& self.consumed <= self.pending_end <= self.in_len
        &&& self.written <= self.out_len
    }

    pub open spec fn start(in_len: usize, out_len: usize) -> CryptoRun {
        CryptoRun { in_len, out_len, consumed: 0, written: 0, pending_end: 0, stage: Stage::Resetting }
    }

    pub open spec fn over(self) -> CryptoRun {
        CryptoRun { stage: Stage::Over, ..self }
    }
}

/// End of the next input range: one block in ECB, all of it otherwise.
pub open spec fn chunk_end(info: CipherInfo, run: CryptoRun) -> int {
    if info.mode == CipherMode::ECB {
        if run.consumed + info.block_size < run.in_len {
            run.consumed + info.block_size
        } else {
            run.in_len as int
        }
    } else {
        run.in_len as int
    }
}

/// The next update of a run, or its end where ECB has consumed all input.
pub open spec fn next_update(info: CipherInfo, op: Operation, run: CryptoRun) -> (CryptoRun, Action) {
    if info.mode == CipherMode::ECB && run.consumed == run.in_len {
        (run.over(), Action::Done(run.written))
    } else {
        let end = chunk_end(info, run);
        if run.out_len - run.written < update_capacity(info, end - run.consumed) {
            (run.over(), Action::Fail(Error::CipherFullBlockExpected))
        } else if op == Operation::Unspecified {
            (run.over(), Action::Fail(Error::CipherBadInputData))
        } else {
            (
                CryptoRun { pending_end: end as usize, stage: Stage::Updating, ..run },
                Action::Update {
                    input_start: run.consumed,
                    input_end: end as usize,
                    output_start: run.written,
                },
            )
        }
    }
}

/// What follows the engine's answer `event` to the last action of `run`.
pub open spec fn next_step(info: CipherInfo, op: Operation, run: CryptoRun, event: Result<usize, Error>) -> (CryptoRun, Action) {
    match run.stage {
        Stage::Resetting => match event {
            Err(e) => (run.over(), Action::Fail(e)),
            Ok(_) => next_update(info, op, run),
        },
        Stage::Updating => match event {
            Err(e) => (run.over(), Action::Fail(e)),
            Ok(n) => if n > run.out_len - run.written {
                (run.over(), Action::Fail(Error::CipherInvalidContext))
            } else {
                let after = CryptoRun { consumed: run.pending_end, written: (run.written + n) as usize, ..run };
                if info.mode == CipherMode::ECB {
                    next_update(info, op, after)
                } else if after.out_len - after.written < info.block_size {
                    (after.over(), Action::Fail(Error::CipherFullBlockExpected))
                } else if op == Operation::Unspecified {
                    (after.over(), Action::Fail(Error::CipherBadInputData))
                } else {
                    (
                        CryptoRun { stage: Stage::Finishing, ..after },
                        Action::Finish { output_start: after.written },
                    )
                }
            },
        },
        Stage::Finishing => match event {
            Err(e) => (run.over(), Action::Fail(e)),
            Ok(n) => if n > run.out_len - run.written {
                (run.over(), Action::Fail(Error::CipherInvalidContext))
            } else {
                let after = CryptoRun { written: (run.written + n) as usize, ..run };
                (after.over(), Action::Done(after.written))
            },
        },
        Stage::Over => (run, Action::Fail(Error::CipherBadInputData)),
    }
}

/// Every action of a run stays inside the output buffer: an update is
/// asked for only where the output from its start holds the worst case of
/// that update, a finish only where a block fits, and a run never reports
/// more output than the buffer holds.
pub proof fn lemma_actions_within_output(info: CipherInfo, op: Operation, run: CryptoRun, event: Result<usize, Error>)
    requires
        info.wf(),
        run.wf(),
    ensures
        ({
            let (after, a) = next_step(info, op, run, event);
            &&& after.wf()
            &&& (a matches Action::Update { input_start, input_end, output_start } ==> {
                &&& input_start <= input_end <= run.in_len
                &&& output_start <= run.out_len
                &&& run.out_len - output_start >= update_capacity(info, input_end - input_start)
            })
            &&& (a matches Action::Finish { output_start } ==> run.out_len - output_start >= info.block_size)
            &&& (a matches Action::Done(n) ==> n <= run.out_len)
        }),
{
}

/// A one-shot run in a mode other than ECB whose output cannot hold the
/// input plus one block fails with `CipherFullBlockExpected` right after the
/// reset, before the engine is asked to write anything.
pub proof fn lemma_short_output_fails(info: CipherInfo, op: Operation, in_len: usize, out_len: usize, n: usize)
    requires
        info.wf(),
        info.mode != CipherMode::ECB,
        out_len < in_len + info.block_size,
    ensures
        next_step(info, op, CryptoRun::start(in_len, out_len), Ok(n)).1
            == Action::Fail(Error::CipherFullBlockExpected),
        next_step(info, op, CryptoRun::start(in_len, out_len), Ok(n)).0.stage == Stage::Over,
{
}

/// In ECB a one-shot run feeds the engine one block at a time: each update
/// takes the next block of input (the last one may be shorter), in order,
/// and writes right after the output of the updates before it; the run ends
/// only once all input was consumed.
pub proof fn lemma_ecb_one_block_per_update(info: CipherInfo, op: Operation, run: CryptoRun, event: Result<usize, Error>)
    requires
        info.wf(),
        info.mode == CipherMode::ECB,
        run.wf(),
        run.stage == Stage::Resetting || run.stage == Stage::Updating,
    ensures
        ({
            let (after, a) = next_step(info, op, run, event);
            &&& (a matches Action::Update { input_start, input_end, output_start } ==> {
                &&& input_start == after.consumed
                &&& input_start == if run.stage == Stage::Resetting { run.consumed } else { run.pending_end }
                &&& output_start == after.written
                &&& input_start < input_end
                &&& input_end - input_start == if run.in_len - input_start < info.block_size {
                        run.in_len - input_start
                    } else {
                        info.block_size as int
                    }
            })
            &&& (a matches Action::Done(n) ==> after.consumed == run.in_len && n == after.written)
            &&& !(a is Finish)
        }),
{
}

impl Cipher {
    /// Starts a one-shot encryption of `plain_len` bytes into `cipher_len`
    /// bytes of output. The engine is first asked to reset.
    pub fn encrypt(&self, plain_len: usize, cipher_len: usize) -> (r: (CryptoRun, Action))
        ensures
            r == (CryptoRun::start(plain_len, cipher_len), Action::Reset),
    {
        self.do_crypto(plain_len, cipher_len)
    }

    /// Starts a one-shot decryption of `cipher_len` bytes into `plain_len`
    /// bytes of output. The engine is first asked to reset.
    pub fn decrypt(&self, cipher_len: usize, plain_len: usize) -> (r: (CryptoRun, Action))
        ensures
            r == (CryptoRun::start(cipher_len, plain_len), Action::Reset),
    {
        self.do_crypto(cipher_len, plain_len)
    }

    fn do_crypto(&self, in_len: usize, out_len: usize) -> (r: (CryptoRun, Action))
        ensures
            r == (CryptoRun::start(in_len, out_len), Action::Reset),
    {
        let run = CryptoRun { in_len, out_len, consumed: 0, written: 0, pending_end: 0, stage: Stage::Resetting };
        (run, Action::Reset)
    }

    fn plan_update(&mut self, run: &mut CryptoRun) -> (r: Action)
        requires
            old(run).wf(),
            old(self).wf(),
        ensures
            (*final(run), r) == next_update(old(self).info, old(self).operation, *old(run)),
            final(self).info == old(self).info,
            final(self).operation == old(self).operation,
            final(self).iv@ == old(self).iv@,
            final(self).padding == old(self).padding,
    {
        let ecb = self.info.mode == CipherMode::ECB;
        if ecb && run.consumed == run.in_len {
            run.stage = Stage::Over;
            return Action::Done(run.written);
        }
        let end = if ecb && run.in_len - run.consumed > self.info.block_size {
            run.consumed + self.info.block_size
        } else {
            run.in_len
        };
        match self.update(end - run.consumed, run.out_len - run.written) {
            Err(e) => {
                run.stage = Stage::Over;
                Action::Fail(e)
            },
            Ok(()) => {
                run.pending_end = end;
                run.stage = Stage::Updating;
                Action::Update { input_start: run.consumed, input_end: end, output_start: run.written }
            },
        }
    }

    /// Hands the engine's answer to the last action of `run` to the session
    /// and returns the next action: updates one block at a time in ECB, one
    /// update and a finish otherwise, each checked for output space first.
    pub fn step(&mut self, run: &mut CryptoRun, event: Result<usize, Error>) -> (r: Action)
        requires
            old(run).wf(),
            old(self).wf(),
        ensures
            (*final(run), r) == next_step(old(self).info, old(self).operation, *old(run), event),
            final(run).wf(),
            final(self).wf(),
            final(self).info == old(self).info,
            final(self).operation == old(self).operation,
            final(self).iv@ == old(self).iv@,
            final(self).padding == old(self).padding,
    {
        match run.stage {
            Stage::Resetting => match event {
                Err(e) => {
                    run.stage = Stage::Over;
                    Action::Fail(e)
                },
                Ok(_) => {
                    let _ = self.reset();
                    self.plan_update(run)
                },
            },
            Stage::Updating => match event {
                Err(e) => {
                    run.stage = Stage::Over;
                    Action::Fail(e)
                },
                Ok(n) => {
                    if n > run.out_len - run.written {
                        run.stage = Stage::Over;
                        return Action::Fail(Error::CipherInvalidContext);
                    }
                    run.written = run.written + n;
                    run.consumed = run.pending_end;
                    if self.info.mode == CipherMode::ECB {
                        self.plan_update(run)
                    } else {
                        match self.finish(run.out_len - run.written) {
                            Err(e) => {
                                run.stage = Stage::Over;
                                Action::Fail(e)
                            },
                            Ok(()) => {
                                run.stage = Stage::Finishing;
                                Action::Finish { output_start: run.written }
                            },
                        }
                    }
                },
            },
            Stage::Finishing => match event {
                Err(e) => {
                    run.stage = Stage::Over;
                    Action::Fail(e)
                },
                Ok(n) => {
                    if n > run.out_len - run.written {
                        run.stage = Stage::Over;
                        return Action::Fail(Error::CipherInvalidContext);
                    }
                    run.written = run.written + n;
                    run.stage = Stage::Over;
                    Action::Done(run.written)
                },
            },
            Stage::Over => Action::Fail(Error::CipherBadInputData),
        }
    }
}

} // verus!
