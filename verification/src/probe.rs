//! The identity and the allocation size of a DMA-BUF, read through its file descriptor.

use vstd::prelude::*;

use crate::error::DmaBufAllocationSizeError;

verus! {

/// What the operating system says of a file.
#[derive(Clone, Copy, Debug, PartialEq, Eq, Structural)]
pub struct DmaBufStat {
    pub device: u64,
    pub inode: u64,
    pub size: i64,
}

/// A buffer: which file it is, and how large its allocation is.
#[derive(Clone, Copy, Debug, PartialEq, Eq, Structural)]
pub struct DmaBufProbe {
    pub device: u64,
    pub inode: u64,
    pub allocation_size: u64,
}

/// Where to move the position of a file.
#[derive(Clone, Copy, Debug, PartialEq, Eq, Structural)]
pub enum SeekTarget {
    /// To where it is.
    Current,
    /// To the end.
    End,
    /// To this many bytes from the start.
    Start(u64),
}

/// The buffer that the readings of a file describe. The end of the file is the size of the
/// allocation; a positive size from the file status has to agree with it.
pub open spec fn probe_of(stat: DmaBufStat, allocation_end: u64) -> Result<
    DmaBufProbe,
    DmaBufAllocationSizeError,
> {
    if allocation_end == 0 {
        Err(DmaBufAllocationSizeError::Zero)
    } else if stat.size < 0 {
        Err(DmaBufAllocationSizeError::NegativeStat(stat.size))
    } else if stat.size > 0 && stat.size != allocation_end {
        Err(
            DmaBufAllocationSizeError::ProbeMismatch {
                stat: stat.size as u64,
                seek_end: allocation_end,
            },
        )
    } else {
        Ok(
            DmaBufProbe {
                device: stat.device,
                inode: stat.inode,
                allocation_size: allocation_end,
            },
        )
    }
}

/// The buffer that the readings of a file describe.
pub fn evaluate_probe(stat: DmaBufStat, allocation_end: u64) -> (result: Result<
    DmaBufProbe,
    DmaBufAllocationSizeError,
>)
    ensures
        result == probe_of(stat, allocation_end),
{
    if allocation_end == 0 {
        return Err(DmaBufAllocationSizeError::Zero);
    }
    if stat.size < 0 {
        return Err(DmaBufAllocationSizeError::NegativeStat(stat.size));
    }
    if stat.size > 0 {
        let stat_size: u64 = stat.size as u64;
        if stat_size != allocation_end {
            return Err(
                DmaBufAllocationSizeError::ProbeMismatch {
                    stat: stat_size,
                    seek_end: allocation_end,
                },
            );
        }
    }
    Ok(
        DmaBufProbe {
            device: stat.device,
            inode: stat.inode,
            allocation_size: allocation_end,
        },
    )
}

/// How far the probing of a file has come.
#[derive(Debug)]
pub enum ProbeStep {
    /// The position is to be read.
    ReadPosition { status: DmaBufStat },
    /// The end is to be read. The position is known where it could be read.
    ReadEnd { status: DmaBufStat, position: Option<u64> },
    /// The position is to be put back.
    Restore { status: DmaBufStat, position: u64, end: Result<u64, std::io::Error> },
    Done(Result<DmaBufProbe, DmaBufAllocationSizeError>),
}

/// What is found once the end has been read and the position is back.
pub open spec fn finding(status: DmaBufStat, end: Result<u64, std::io::Error>) -> ProbeStep {
    match end {
        Ok(end) => ProbeStep::Done(probe_of(status, end)),
        Err(error) => ProbeStep::Done(Err(DmaBufAllocationSizeError::Seek(error))),
    }
}

impl ProbeStep {
    /// The first step, from the status of the file.
    pub open spec fn first(stat: Result<DmaBufStat, std::io::Error>) -> ProbeStep {
        match stat {
            Ok(status) => ProbeStep::ReadPosition { status },
            Err(error) => ProbeStep::Done(Err(DmaBufAllocationSizeError::Stat(error))),
        }
    }

    /// Where the position is moved next.
    pub open spec fn seek_target(self) -> Option<SeekTarget> {
        match self {
            ProbeStep::ReadPosition { .. } => Some(SeekTarget::Current),
            ProbeStep::ReadEnd { .. } => Some(SeekTarget::End),
            ProbeStep::Restore { position, .. } => Some(SeekTarget::Start(position)),
            ProbeStep::Done(_) => None,
        }
    }

    /// The step after the position has been moved.
    pub open spec fn after(self, outcome: Result<u64, std::io::Error>) -> ProbeStep {
        match self {
            ProbeStep::ReadPosition { status } => ProbeStep::ReadEnd {
                status,
                position: match outcome {
                    Ok(position) => Some(position),
                    Err(_) => None,
                },
            },
            ProbeStep::ReadEnd { status, position: Some(position) } => ProbeStep::Restore {
                status,
                position,
                end: outcome,
            },
            ProbeStep::ReadEnd { status, position: None } => finding(status, outcome),
            ProbeStep::Restore { status, end, .. } => match outcome {
                Ok(_) => finding(status, end),
                Err(error) => ProbeStep::Done(Err(DmaBufAllocationSizeError::Restore(error))),
            },
            ProbeStep::Done(_) => self,
        }
    }

    /// How many moves are left at most.
    pub open spec fn moves_left(self) -> nat {
        match self {
            ProbeStep::ReadPosition { .. } => 3,
            ProbeStep::ReadEnd { .. } => 2,
            ProbeStep::Restore { .. } => 1,
            ProbeStep::Done(_) => 0,
        }
    }

    /// Begins with the status of the file.
    pub fn begin(stat: Result<DmaBufStat, std::io::Error>) -> (step: ProbeStep)
        ensures
            step == ProbeStep::first(stat),
    {
        match stat {
            Ok(status) => ProbeStep::ReadPosition { status },
            Err(error) => ProbeStep::Done(Err(DmaBufAllocationSizeError::Stat(error))),
        }
    }

    /// Where to move the position next. There is nowhere to go once the probing is done.
    pub fn target(&self) -> (target: Option<SeekTarget>)
        ensures
            target == self.seek_target(),
    {
        match self {
            ProbeStep::ReadPosition { .. } => Some(SeekTarget::Current),
            ProbeStep::ReadEnd { .. } => Some(SeekTarget::End),
            ProbeStep::Restore { position, .. } => Some(SeekTarget::Start(*position)),
            ProbeStep::Done(_) => None,
        }
    }

    /// Goes on after the position has been moved, where `outcome` is where it came to.
    pub fn sought(self, outcome: Result<u64, std::io::Error>) -> (step: ProbeStep)
        ensures
            step == self.after(outcome),
    {
        match self {
            ProbeStep::ReadPosition { status } => match outcome {
                Ok(position) => ProbeStep::ReadEnd { status, position: Some(position) },
                Err(_) => ProbeStep::ReadEnd { status, position: None },
            },
            ProbeStep::ReadEnd { status, position: Some(position) } => ProbeStep::Restore {
                status,
                position,
                end: outcome,
            },
            ProbeStep::ReadEnd { status, position: None } => found(status, outcome),
            ProbeStep::Restore { status, position: _, end } => match outcome {
                Ok(_) => found(status, end),
                Err(error) => ProbeStep::Done(Err(DmaBufAllocationSizeError::Restore(error))),
            },
            ProbeStep::Done(result) => ProbeStep::Done(result),
        }
    }
}

fn found(status: DmaBufStat, end: Result<u64, std::io::Error>) -> (step: ProbeStep)
    ensures
        step == finding(status, end),
{
    match end {
        Ok(end) => ProbeStep::Done(evaluate_probe(status, end)),
        Err(error) => ProbeStep::Done(Err(DmaBufAllocationSizeError::Seek(error))),
    }
}

/// A position that could be read is put back, and that is the last move: it does not matter
/// whether the end could be read.
pub proof fn probing_puts_the_position_back(
    status: DmaBufStat,
    position: u64,
    end: Result<u64, std::io::Error>,
    restored: Result<u64, std::io::Error>,
)
    ensures
        ({
            let first = ProbeStep::first(Ok(status));
            let second = first.after(Ok(position));
            let third = second.after(end);
            &&& first.seek_target() == Some(SeekTarget::Current)
            &&& second.seek_target() == Some(SeekTarget::End)
            &&& third.seek_target() == Some(SeekTarget::Start(position))
            &&& third.after(restored).seek_target() == None::<SeekTarget>
        }),
{
}

/// `seek` may return `outcome` for `target`.
pub open spec fn seeks<G: Fn(SeekTarget) -> Result<u64, std::io::Error>>(
    seek: G,
    target: SeekTarget,
    outcome: Result<u64, std::io::Error>,
) -> bool {
    call_ensures(seek, (target,), outcome)
}

/// The position of a file was read, and `outcome` came of putting it back.
pub open spec fn puts_back<G: Fn(SeekTarget) -> Result<u64, std::io::Error>>(
    seek: G,
    position: u64,
    outcome: Result<u64, std::io::Error>,
) -> bool {
    seeks(seek, SeekTarget::Current, Ok(position)) && seeks(
        seek,
        SeekTarget::Start(position),
        outcome,
    )
}

/// What probing a file may come to, where `stat` reads its status and `seek` moves its position:
/// the status is read first, then the position, then the end, and the position is put back where
/// it could be read. A position that cannot be put back is reported before an end that cannot be
/// read.
pub open spec fn probe_outcome<
    F: Fn() -> Result<DmaBufStat, std::io::Error>,
    G: Fn(SeekTarget) -> Result<u64, std::io::Error>,
>(stat: F, seek: G, result: Result<DmaBufProbe, DmaBufAllocationSizeError>) -> bool {
    match result {
        Err(DmaBufAllocationSizeError::Stat(error)) => call_ensures(stat, (), Err(error)),
        Err(DmaBufAllocationSizeError::Restore(error)) => status_is_read(stat)
            && end_is_sought(seek) && position_is_lost(seek, error),
        Err(DmaBufAllocationSizeError::Seek(error)) => status_is_read(stat) && seeks(
            seek,
            SeekTarget::End,
            Err(error),
        ) && position_is_safe(seek),
        evaluated => exists|status: DmaBufStat, end: u64|
            evaluated == #[trigger] probe_of(status, end) && call_ensures(stat, (), Ok(status))
                && seeks(seek, SeekTarget::End, Ok(end)) && position_is_safe(seek),
    }
}

/// The status of the file was read.
pub open spec fn status_is_read<F: Fn() -> Result<DmaBufStat, std::io::Error>>(stat: F) -> bool {
    exists|status: DmaBufStat| call_ensures(stat, (), Ok(status))
}

/// The end of the file was looked for.
pub open spec fn end_is_sought<G: Fn(SeekTarget) -> Result<u64, std::io::Error>>(seek: G) -> bool {
    exists|end: Result<u64, std::io::Error>| seeks(seek, SeekTarget::End, end)
}

/// The position of the file was read, and putting it back failed with `error`.
pub open spec fn position_is_lost<G: Fn(SeekTarget) -> Result<u64, std::io::Error>>(
    seek: G,
    error: std::io::Error,
) -> bool {
    exists|position: u64| #[trigger] puts_back(seek, position, Err(error))
}

/// The position of the file could not be read, or was put back.
pub open spec fn position_is_safe<G: Fn(SeekTarget) -> Result<u64, std::io::Error>>(
    seek: G,
) -> bool {
    ||| exists|error: std::io::Error| seeks(seek, SeekTarget::Current, Err(error))
    ||| exists|position: u64, restored: u64| puts_back(seek, position, Ok(restored))
}

/// The probing may have come to `step`.
pub open spec fn is_reached<
    F: Fn() -> Result<DmaBufStat, std::io::Error>,
    G: Fn(SeekTarget) -> Result<u64, std::io::Error>,
>(stat: F, seek: G, step: ProbeStep) -> bool {
    match step {
        ProbeStep::ReadPosition { status } => call_ensures(stat, (), Ok(status)),
        ProbeStep::ReadEnd { status, position } => call_ensures(stat, (), Ok(status)) && match
            position {
            Some(position) => seeks(seek, SeekTarget::Current, Ok(position)),
            None => exists|error: std::io::Error| seeks(seek, SeekTarget::Current, Err(error)),
        },
        ProbeStep::Restore { status, position, end } => call_ensures(stat, (), Ok(status))
            && seeks(seek, SeekTarget::Current, Ok(position)) && seeks(seek, SeekTarget::End, end),
        ProbeStep::Done(result) => probe_outcome(stat, seek, result),
    }
}

/// `seek` may make the move that is due, wherever the probing has come to.
pub open spec fn admits_moves<
    F: Fn() -> Result<DmaBufStat, std::io::Error>,
    G: Fn(SeekTarget) -> Result<u64, std::io::Error>,
>(stat: F, seek: G) -> bool {
    forall|step: ProbeStep| #[trigger]
        is_reached(stat, seek, step) ==> (step.seek_target() matches Some(target) ==> call_requires(
            seek,
            (target,),
        ))
}

proof fn moves_are_reached<
    F: Fn() -> Result<DmaBufStat, std::io::Error>,
    G: Fn(SeekTarget) -> Result<u64, std::io::Error>,
>(stat: F, seek: G, step: ProbeStep, outcome: Result<u64, std::io::Error>)
    requires
        is_reached(stat, seek, step),
        step.seek_target() matches Some(target) && seeks(seek, target, outcome),
    ensures
        is_reached(stat, seek, step.after(outcome)),
{
    if let ProbeStep::Restore { position, .. } = step {
        assert(puts_back(seek, position, outcome));
    }
}

/// Reads the identity and the allocation size of a buffer. `stat` reads the status of its file,
/// `seek` moves the position. Exporters report the complete allocation as the end of the file; the
/// position, which other holders of the file share, is put back.
pub fn probe_dmabuf<F, G>(stat: F, seek: G) -> (result: Result<
    DmaBufProbe,
    DmaBufAllocationSizeError,
>) where
    F: Fn() -> Result<DmaBufStat, std::io::Error>,
    G: Fn(SeekTarget) -> Result<u64, std::io::Error>,

    requires
        call_requires(stat, ()),
        admits_moves(stat, seek),
    ensures
        probe_outcome(stat, seek, result),
{
    let mut step = ProbeStep::begin(stat());
    loop
        invariant
            admits_moves(stat, seek),
            is_reached(stat, seek, step),
        ensures
            step is Done,
            is_reached(stat, seek, step),
        decreases step.moves_left(),
    {
        match step.target() {
            Some(target) => {
                let outcome = seek(target);
                let ghost before = step;
                step = step.sought(outcome);
                proof {
                    moves_are_reached(stat, seek, before, outcome);
                }
            },
            None => break,
        }
    }
    match step {
        ProbeStep::Done(result) => result,
        _ => Err(DmaBufAllocationSizeError::Zero),
    }
}

/// The complete allocation size of a buffer. This is no image or plane span: it holds any padding
/// that the exporter put behind the last byte of the planes.
pub fn dmabuf_allocation_size<F, G>(stat: F, seek: G) -> (result: Result<
    u64,
    DmaBufAllocationSizeError,
>) where
    F: Fn() -> Result<DmaBufStat, std::io::Error>,
    G: Fn(SeekTarget) -> Result<u64, std::io::Error>,

    requires
        call_requires(stat, ()),
        admits_moves(stat, seek),
    ensures
        match result {
            Ok(size) => exists|probe: DmaBufProbe|
                probe.allocation_size == size && #[trigger] probe_outcome(stat, seek, Ok(probe)),
            Err(error) => probe_outcome(stat, seek, Err(error)),
        },
{
    match probe_dmabuf(stat, seek) {
        Ok(probe) => Ok(probe.allocation_size),
        Err(error) => Err(error),
    }
}

} // verus!
