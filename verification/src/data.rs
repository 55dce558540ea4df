//! Radials, sweeps and scans, and the state machine that nests a stream of
//! radials into them.

use vstd::prelude::*;
use crate::digital_radar_data::{Message, Moments};
use crate::result::Error;

verus! {

/// A radial's position within the sequence of radials comprising a scan.
#[derive(Clone, Copy, Debug, PartialEq, Eq, Structural)]
pub enum RadialStatus {
    ElevationStart,
    IntermediateRadialData,
    ElevationEnd,
    VolumeScanStart,
    VolumeScanEnd,
    /// Start of new elevation which is the last in the VCP.
    ElevationStartVCPFinal,
}

/// The radial status that a status code stands for, if any.
pub open spec fn spec_radial_status(code: u8) -> Option<RadialStatus> {
    if code == 0 {
        Some(RadialStatus::ElevationStart)
    } else if code == 1 {
        Some(RadialStatus::IntermediateRadialData)
    } else if code == 2 {
        Some(RadialStatus::ElevationEnd)
    } else if code == 3 {
        Some(RadialStatus::VolumeScanStart)
    } else if code == 4 {
        Some(RadialStatus::VolumeScanEnd)
    } else if code == 5 {
        Some(RadialStatus::ElevationStartVCPFinal)
    } else {
        None
    }
}

/// Decodes a radial status code.
pub fn radial_status_from_code(code: u8) -> (r: Option<RadialStatus>)
    ensures
        r == spec_radial_status(code),
{
    if code == 0 {
        Some(RadialStatus::ElevationStart)
    } else if code == 1 {
        Some(RadialStatus::IntermediateRadialData)
    } else if code == 2 {
        Some(RadialStatus::ElevationEnd)
    } else if code == 3 {
        Some(RadialStatus::VolumeScanStart)
    } else if code == 4 {
        Some(RadialStatus::VolumeScanEnd)
    } else if code == 5 {
        Some(RadialStatus::ElevationStartVCPFinal)
    } else {
        None
    }
}

/// Bits of the 32-bit float 0.5.
pub const HALF_DEGREE_BITS: u32 = 0x3F00_0000;

/// Bits of the 32-bit float 1.0.
pub const ONE_DEGREE_BITS: u32 = 0x3F80_0000;

/// The instant that a day count, in which 1 January 1970 is day one, and a
/// time of day name, in milliseconds since 1 January 1970 00:00 GMT.
pub open spec fn spec_collection_timestamp(date: u16, time: u32) -> int {
    (date as int - 1) * 86_400_000 + time as int
}

/// The azimuthal spacing in degrees that a spacing code stands for, as
/// float bits: half a degree for code one, else one degree.
pub open spec fn spec_azimuth_spacing_bits(code: u8) -> u32 {
    if code == 1 {
        HALF_DEGREE_BITS
    } else {
        ONE_DEGREE_BITS
    }
}

/// A single radar ray: one azimuth and elevation at a point in time, with
/// the samples of each moment along the ray. Angles are kept as the bits of
/// 32-bit floats.
#[derive(Clone, Debug, PartialEq, Eq)]
pub struct Radial {
    pub collection_timestamp: i64,
    pub azimuth_number: u16,
    pub azimuth_angle_bits: u32,
    pub azimuth_spacing_bits: u32,
    pub radial_status: RadialStatus,
    pub elevation_angle_bits: u32,
    pub volume_coverage_pattern_number: u16,
    pub moments: Moments,
}

impl Radial {
    /// The radial that a digital radar data message describes, with the
    /// message's moments moved into it. `MalformedRadialSequence` where the
    /// message's status code names no radial status.
    pub fn from_message(message: Message) -> (r: Result<Radial, Error>)
        ensures
            match spec_radial_status(message.header.radial_status) {
                None => r == Err::<Radial, Error>(Error::MalformedRadialSequence),
                Some(status) => r == Ok::<Radial, Error>(
                    Radial {
                        collection_timestamp: spec_collection_timestamp(
                            message.header.date,
                            message.header.time,
                        ) as i64,
                        azimuth_number: message.header.azimuth_number,
                        azimuth_angle_bits: message.header.azimuth_angle,
                        azimuth_spacing_bits: spec_azimuth_spacing_bits(
                            message.header.azimuth_resolution_spacing,
                        ),
                        radial_status: status,
                        elevation_angle_bits: message.header.elevation_angle,
                        volume_coverage_pattern_number: message.volume.volume_coverage_pattern_number,
                        moments: message.moments,
                    },
                ),
            },
            r matches Ok(radial) ==> radial.collection_timestamp == spec_collection_timestamp(
                message.header.date,
                message.header.time,
            ),
    {
        let status = match radial_status_from_code(message.header.radial_status) {
            None => { return Err(Error::MalformedRadialSequence); },
            Some(status) => status,
        };
        let days: i64 = message.header.date as i64 - 1;
        let millis: i64 = message.header.time as i64;
        let spacing: u32 = if message.header.azimuth_resolution_spacing == 1 {
            HALF_DEGREE_BITS
        } else {
            ONE_DEGREE_BITS
        };
        Ok(
            Radial {
                collection_timestamp: days * 86_400_000 + millis,
                azimuth_number: message.header.azimuth_number,
                azimuth_angle_bits: message.header.azimuth_angle,
                azimuth_spacing_bits: spacing,
                radial_status: status,
                elevation_angle_bits: message.header.elevation_angle,
                volume_coverage_pattern_number: message.volume.volume_coverage_pattern_number,
                moments: message.moments,
            },
        )
    }

    /// The collection timestamp in milliseconds since midnight of
    /// 1 January 1970.
    pub fn collection_timestamp(&self) -> (r: i64)
        ensures
            r == self.collection_timestamp,
    {
        self.collection_timestamp
    }

    /// The index number of this radial's azimuth in its sweep.
    pub fn azimuth_number(&self) -> (r: u16)
        ensures
            r == self.azimuth_number,
    {
        self.azimuth_number
    }

    /// The radial's position in the sequence of radials making up a scan.
    pub fn radial_status(&self) -> (r: RadialStatus)
        ensures
            r == self.radial_status,
    {
        self.radial_status
    }
}

/// The radials of one elevation cut, in the order they were collected.
#[derive(Clone, Debug, PartialEq, Eq)]
pub struct Sweep {
    radials: Vec<Radial>,
}

impl View for Sweep {
    type V = Seq<Radial>;

    closed spec fn view(&self) -> Seq<Radial> {
        self.radials@
    }
}

impl Sweep {
    /// A sweep of the given radials.
    pub fn new(radials: Vec<Radial>) -> (r: Self)
        ensures
            r@ == radials@,
    {
        Self { radials }
    }

    /// The radials comprising this sweep.
    pub fn radials(&self) -> (r: &Vec<Radial>)
        ensures
            r@ == self@,
    {
        &self.radials
    }
}

/// The radials of a run of sweeps.
pub open spec fn sweep_views(v: Seq<Sweep>) -> Seq<Seq<Radial>> {
    v.map_values(|s: Sweep| s@)
}

/// A single volume scan: the sweeps at its elevations, and the number of
/// the coverage pattern that chose them.
#[derive(Clone, Debug, PartialEq, Eq)]
pub struct Scan {
    coverage_pattern_number: u16,
    sweeps: Vec<Sweep>,
}

impl View for Scan {
    type V = (u16, Seq<Seq<Radial>>);

    closed spec fn view(&self) -> (u16, Seq<Seq<Radial>>) {
        (self.coverage_pattern_number, sweep_views(self.sweeps@))
    }
}

impl Scan {
    /// A scan of the given sweeps.
    pub fn new(coverage_pattern_number: u16, sweeps: Vec<Sweep>) -> (r: Self)
        ensures
            r@ == (coverage_pattern_number, sweep_views(sweeps@)),
    {
        Self { coverage_pattern_number, sweeps }
    }

    /// This scan's volume coverage pattern number.
    pub fn coverage_pattern_number(&self) -> (r: u16)
        ensures
            r == self@.0,
    {
        self.coverage_pattern_number
    }

    /// The elevation sweeps comprising this scan.
    pub fn sweeps(&self) -> (r: &Vec<Sweep>)
        ensures
            sweep_views(r@) == self@.1,
    {
        &self.sweeps
    }
}

/// The contents of a run of scans.
pub open spec fn scan_views(v: Seq<Scan>) -> Seq<(u16, Seq<Seq<Radial>>)> {
    v.map_values(|s: Scan| s@)
}

/// Where the assembler stands between two radials.
#[derive(Clone, Debug, PartialEq, Eq)]
pub enum Assembler {
    /// No scan is open.
    AwaitingVolumeStart,
    /// A scan is open, and a sweep within it.
    InSweep { coverage_pattern_number: u16, sweeps: Vec<Sweep>, radials: Vec<Radial> },
    /// A scan is open, and its last sweep is closed.
    AwaitingSweepStart { coverage_pattern_number: u16, sweeps: Vec<Sweep> },
}

/// The assembler's state, with its lists as sequences.
pub enum AssemblerView {
    AwaitingVolumeStart,
    InSweep { coverage_pattern_number: u16, sweeps: Seq<Seq<Radial>>, radials: Seq<Radial> },
    AwaitingSweepStart { coverage_pattern_number: u16, sweeps: Seq<Seq<Radial>> },
}

impl View for Assembler {
    type V = AssemblerView;

    open spec fn view(&self) -> AssemblerView {
        match *self {
            Assembler::AwaitingVolumeStart => AssemblerView::AwaitingVolumeStart,
            Assembler::InSweep { coverage_pattern_number, sweeps, radials } => AssemblerView::InSweep {
                coverage_pattern_number,
                sweeps: sweep_views(sweeps@),
                radials: radials@,
            },
            Assembler::AwaitingSweepStart {
                coverage_pattern_number,
                sweeps,
            } => AssemblerView::AwaitingSweepStart {
                coverage_pattern_number,
                sweeps: sweep_views(sweeps@),
            },
        }
    }
}

/// The transition table. From a state and the next radial: the next state
/// and the scan that the radial completed, if it completed one; or
/// `MalformedRadialSequence` where the radial's status cannot follow.
///
/// A volume start opens a scan and its first sweep, and is that sweep's
/// first radial. An elevation start opens a sweep in the open scan and is
/// its first radial. An intermediate radial joins the open sweep. An
/// elevation end joins the open sweep and closes it. A volume end joins
/// and closes the open sweep, if one is open, and completes the scan;
/// where the last sweep is closed already it completes the scan and joins
/// no sweep.
pub open spec fn spec_step(state: AssemblerView, radial: Radial) -> Result<
    (AssemblerView, Option<(u16, Seq<Seq<Radial>>)>),
    Error,
> {
    match state {
        AssemblerView::AwaitingVolumeStart => match radial.radial_status {
            RadialStatus::VolumeScanStart => Ok(
                (
                    AssemblerView::InSweep {
                        coverage_pattern_number: radial.volume_coverage_pattern_number,
                        sweeps: Seq::empty(),
                        radials: seq![radial],
                    },
                    None,
                ),
            ),
            _ => Err(Error::MalformedRadialSequence),
        },
        AssemblerView::InSweep { coverage_pattern_number, sweeps, radials } => match radial.radial_status {
            RadialStatus::IntermediateRadialData => Ok(
                (
                    AssemblerView::InSweep {
                        coverage_pattern_number,
                        sweeps,
                        radials: radials.push(radial),
                    },
                    None,
                ),
            ),
            RadialStatus::ElevationEnd => Ok(
                (
                    AssemblerView::AwaitingSweepStart {
                        coverage_pattern_number,
                        sweeps: sweeps.push(radials.push(radial)),
                    },
                    None,
                ),
            ),
            RadialStatus::VolumeScanEnd => Ok(
                (
                    AssemblerView::AwaitingVolumeStart,
                    Some((coverage_pattern_number, sweeps.push(radials.push(radial)))),
                ),
            ),
            _ => Err(Error::MalformedRadialSequence),
        },
        AssemblerView::AwaitingSweepStart { coverage_pattern_number, sweeps } => match radial.radial_status {
            RadialStatus::ElevationStart | RadialStatus::ElevationStartVCPFinal => Ok(
                (
                    AssemblerView::InSweep { coverage_pattern_number, sweeps, radials: seq![radial] },
                    None,
                ),
            ),
            RadialStatus::VolumeScanEnd => Ok(
                (AssemblerView::AwaitingVolumeStart, Some((coverage_pattern_number, sweeps))),
            ),
            _ => Err(Error::MalformedRadialSequence),
        },
    }
}

/// Whether a step's outcome is what the transition table says.
pub open spec fn step_agrees(
    r: Result<(Assembler, Option<Scan>), Error>,
    expected: Result<(AssemblerView, Option<(u16, Seq<Seq<Radial>>)>), Error>,
) -> bool {
    match expected {
        Err(e) => r == Err::<(Assembler, Option<Scan>), Error>(e),
        Ok((state, scan)) => r matches Ok((next, emitted)) && next@ == state && match scan {
            None => emitted is None,
            Some(v) => emitted matches Some(s) && s@ == v,
        },
    }
}

impl Assembler {
    /// An assembler with no scan open.
    pub fn new() -> (r: Self)
        ensures
            r@ == AssemblerView::AwaitingVolumeStart,
    {
        Assembler::AwaitingVolumeStart
    }

    /// Takes the next radial of the stream: the state after it, and the
    /// scan that it completed, if any.
    pub fn step(self, radial: Radial) -> (r: Result<(Assembler, Option<Scan>), Error>)
        ensures
            step_agrees(r, spec_step(self@, radial)),
    {
        match self {
            Assembler::AwaitingVolumeStart => match radial.radial_status {
                RadialStatus::VolumeScanStart => {
                    let coverage_pattern_number: u16 = radial.volume_coverage_pattern_number;
                    let sweeps: Vec<Sweep> = Vec::new();
                    let mut radials: Vec<Radial> = Vec::new();
                    radials.push(radial);
                    proof {
                        assert(sweep_views(sweeps@) =~= Seq::empty());
                        assert(radials@ =~= seq![radial]);
                    }
                    Ok((Assembler::InSweep { coverage_pattern_number, sweeps, radials }, None))
                },
                _ => Err(Error::MalformedRadialSequence),
            },
            Assembler::InSweep { coverage_pattern_number, sweeps, radials } => {
                let mut sweeps = sweeps;
                let mut radials = radials;
                match radial.radial_status {
                    RadialStatus::IntermediateRadialData => {
                        radials.push(radial);
                        Ok((Assembler::InSweep { coverage_pattern_number, sweeps, radials }, None))
                    },
                    RadialStatus::ElevationEnd => {
                        radials.push(radial);
                        let sweep = Sweep::new(radials);
                        proof {
                            assert(sweep_views(sweeps@.push(sweep)) =~= sweep_views(sweeps@).push(
                                sweep@,
                            ));
                        }
                        sweeps.push(sweep);
                        Ok((Assembler::AwaitingSweepStart { coverage_pattern_number, sweeps }, None))
                    },
                    RadialStatus::VolumeScanEnd => {
                        radials.push(radial);
                        let sweep = Sweep::new(radials);
                        proof {
                            assert(sweep_views(sweeps@.push(sweep)) =~= sweep_views(sweeps@).push(
                                sweep@,
                            ));
                        }
                        sweeps.push(sweep);
                        Ok(
                            (
                                Assembler::AwaitingVolumeStart,
                                Some(Scan::new(coverage_pattern_number, sweeps)),
                            ),
                        )
                    },
                    _ => Err(Error::MalformedRadialSequence),
                }
            },
            Assembler::AwaitingSweepStart { coverage_pattern_number, sweeps } => match radial.radial_status {
                RadialStatus::ElevationStart | RadialStatus::ElevationStartVCPFinal => {
                    let mut radials: Vec<Radial> = Vec::new();
                    radials.push(radial);
                    proof {
                        assert(radials@ =~= seq![radial]);
                    }
                    Ok((Assembler::InSweep { coverage_pattern_number, sweeps, radials }, None))
                },
                RadialStatus::VolumeScanEnd => Ok(
                    (Assembler::AwaitingVolumeStart, Some(Scan::new(coverage_pattern_number, sweeps))),
                ),
                _ => Err(Error::MalformedRadialSequence),
            },
        }
    }
}

/// The state after the first `k` radials and the scans they completed, or
/// the error of the first radial that could not follow.
pub open spec fn spec_fold(radials: Seq<Radial>, k: nat) -> Result<
    (AssemblerView, Seq<(u16, Seq<Seq<Radial>>)>),
    Error,
>
    decreases k,
{
    if k == 0 {
        Ok((AssemblerView::AwaitingVolumeStart, Seq::empty()))
    } else {
        match spec_fold(radials, (k - 1) as nat) {
            Err(e) => Err(e),
            Ok((state, scans)) => match spec_step(state, radials[k - 1]) {
                Err(e) => Err(e),
                Ok((next, None)) => Ok((next, scans)),
                Ok((next, Some(scan))) => Ok((next, scans.push(scan))),
            },
        }
    }
}

/// What a whole stream of radials assembles to: the scans it completes, or
/// `MalformedRadialSequence` where a radial cannot follow or the stream
/// ends inside a scan.
pub open spec fn spec_assemble(radials: Seq<Radial>) -> Result<Seq<(u16, Seq<Seq<Radial>>)>, Error> {
    match spec_fold(radials, radials.len()) {
        Err(e) => Err(e),
        Ok((AssemblerView::AwaitingVolumeStart, scans)) => Ok(scans),
        Ok(_) => Err(Error::MalformedRadialSequence),
    }
}

/// Once a radial could not follow, no longer stream recovers.
pub proof fn lemma_fold_stays_failed(radials: Seq<Radial>, k: nat, n: nat)
    requires
        k <= n,
        spec_fold(radials, k) is Err,
    ensures
        spec_fold(radials, n) == spec_fold(radials, k),
    decreases n,
{
    if k < n {
        lemma_fold_stays_failed(radials, k, (n - 1) as nat);
    }
}

/// An intermediate radial that arrives while no sweep is open is refused,
/// whatever came before and whatever follows.
pub proof fn lemma_intermediate_needs_open_sweep(radials: Seq<Radial>, k: nat)
    requires
        k < radials.len(),
        radials[k as int].radial_status == RadialStatus::IntermediateRadialData,
        spec_fold(radials, k) matches Ok((state, _)) ==> !(state is InSweep),
    ensures
        spec_assemble(radials) is Err,
{
    assert(spec_fold(radials, k + 1) is Err);
    lemma_fold_stays_failed(radials, k + 1, radials.len());
}

/// Whether assembled scans are what the radials say they are.
pub open spec fn scans_agree(
    r: Result<Vec<Scan>, Error>,
    expected: Result<Seq<(u16, Seq<Seq<Radial>>)>, Error>,
) -> bool {
    match expected {
        Err(e) => r == Err::<Vec<Scan>, Error>(e),
        Ok(v) => r matches Ok(scans) && scan_views(scans@) == v,
    }
}

/// Folds a stream of radials, in stream order, into scans of sweeps.
pub fn assemble_scans(radials: Vec<Radial>) -> (r: Result<Vec<Scan>, Error>)
    ensures
        scans_agree(r, spec_assemble(radials@)),
{
    let ghost all = radials@;
    let mut state = Assembler::new();
    let mut scans: Vec<Scan> = Vec::new();
    proof {
        assert(scan_views(scans@) =~= Seq::empty());
    }
    for radial in iter: radials
        invariant
            iter.seq() == all,
            spec_fold(all, iter.index() as nat) == Ok::<
                (AssemblerView, Seq<(u16, Seq<Seq<Radial>>)>),
                Error,
            >((state@, scan_views(scans@))),
    {
        let ghost k = iter.index() as nat;
        match state.step(radial) {
            Err(e) => {
                proof {
                    assert(spec_fold(all, k + 1) is Err);
                    lemma_fold_stays_failed(all, k + 1, all.len());
                }
                return Err(e);
            },
            Ok((next, emitted)) => {
                state = next;
                match emitted {
                    None => {},
                    Some(scan) => {
                        proof {
                            assert(scan_views(scans@.push(scan)) =~= scan_views(scans@).push(scan@));
                        }
                        scans.push(scan);
                    },
                }
            },
        }
    }
    match state {
        Assembler::AwaitingVolumeStart => Ok(scans),
        _ => Err(Error::MalformedRadialSequence),
    }
}

} // verus!
