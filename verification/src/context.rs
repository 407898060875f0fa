//! The execution context of one instance and the four capabilities that the
//! host offers to its guest.
//!
//! A capability does not print. It appends a report to the context of the
//! instance that called it, tagged with that instance's name, and whoever
//! runs the instance decides what to do with the reports. A capability that
//! fails records the cause in the context, so that the run can end with it.

use crate::bridge::{
    lemma_read_after_write, read_bytes, read_text, spec_read, spec_read_text, spec_write,
    write_bytes,
};
use crate::error::HostError;
use crate::layout::{Quat, Transform, Vec3, TRANSFORM_SIZE};
use vstd::prelude::*;
use vstd::string::StringExecFns;

verus! {

/// What a capability reported.
#[derive(Debug, PartialEq, Eq)]
pub enum Report {
    /// The guest asked the host to identify it.
    Identify { extension: String },
    /// The guest emitted a text.
    Text { extension: String, text: String },
    /// The guest emitted a transform.
    Transform { extension: String, transform: Transform },
}

/// A report as a mathematical value.
pub enum ReportView {
    Identify { extension: Seq<char> },
    Text { extension: Seq<char>, text: Seq<char> },
    Transform { extension: Seq<char>, transform: Transform },
}

impl ReportView {
    /// The name of the instance that the report came from.
    pub open spec fn extension(self) -> Seq<char> {
        match self {
            ReportView::Identify { extension } => extension,
            ReportView::Text { extension, .. } => extension,
            ReportView::Transform { extension, .. } => extension,
        }
    }

    /// The line that stands for the report. For a transform it ends where
    /// the fields begin: those are floats, and formatting them is left to
    /// the caller.
    pub open spec fn headline(self) -> Seq<char> {
        match self {
            ReportView::Identify { extension } => extension + " called print_name"@,
            ReportView::Text { extension, text } => "Info::"@ + extension + ": "@ + text,
            ReportView::Transform { extension, .. } => "Info::"@ + extension + ": "@,
        }
    }
}

impl View for Report {
    type V = ReportView;

    open spec fn view(&self) -> ReportView {
        match *self {
            Report::Identify { extension } => ReportView::Identify { extension: extension@ },
            Report::Text { extension, text } => ReportView::Text {
                extension: extension@,
                text: text@,
            },
            Report::Transform { extension, transform } => ReportView::Transform {
                extension: extension@,
                transform,
            },
        }
    }
}

impl Report {
    /// The name of the instance that the report came from.
    pub fn extension(&self) -> (name: &str)
        ensures
            name@ == self@.extension(),
    {
        match self {
            Report::Identify { extension } => extension.as_str(),
            Report::Text { extension, .. } => extension.as_str(),
            Report::Transform { extension, .. } => extension.as_str(),
        }
    }

    /// The line that stands for the report.
    pub fn headline(&self) -> (line: String)
        ensures
            line@ == self@.headline(),
    {
        match self {
            Report::Identify { extension } => {
                let mut line = extension.clone();
                line.append(" called print_name");
                line
            },
            Report::Text { extension, text } => {
                let mut line = String::from_str("Info::");
                line.append(extension.as_str());
                line.append(": ");
                line.append(text.as_str());
                line
            },
            Report::Transform { extension, .. } => {
                let mut line = String::from_str("Info::");
                line.append(extension.as_str());
                line.append(": ");
                line
            },
        }
    }
}

/// The reports of a log as mathematical values, in order.
pub open spec fn reports_view(reports: Seq<Report>) -> Seq<ReportView> {
    Seq::new(reports.len(), |i: int| reports[i]@)
}

/// What the guest's allocator answered when the host asked it for a buffer.
#[derive(Clone, Copy, Debug, PartialEq, Eq, Structural)]
pub enum GuestAllocation {
    /// The guest exports no allocator.
    Missing,
    /// The allocator was called and trapped.
    Failed,
    /// The allocator returned this offset.
    At(u32),
}

/// The transform that the host hands to a guest that asks for one:
/// position (1.0, 1.8, -0.1), rotation (0.0, 0.1, 1.0, 0.3).
pub open spec fn spec_host_transform() -> Transform {
    Transform {
        pos: Vec3 { x: 0x3F80_0000, y: 0x3FE6_6666, z: 0xBDCC_CCCD },
        rotation: Quat { x: 0, y: 0x3DCC_CCCD, z: 0x3F80_0000, w: 0x3E99_999A },
    }
}

/// The transform that the host hands to a guest that asks for one.
pub fn host_transform() -> (transform: Transform)
    ensures
        transform == spec_host_transform(),
{
    Transform {
        pos: Vec3 { x: 0x3F80_0000, y: 0x3FE6_6666, z: 0xBDCC_CCCD },
        rotation: Quat { x: 0, y: 0x3DCC_CCCD, z: 0x3F80_0000, w: 0x3E99_999A },
    }
}

/// The length that the host asks the guest's allocator for when it is to
/// produce a transform: the size that the layout gives a transform, no more
/// and no less.
pub fn transform_request() -> (length: u32)
    ensures
        length == TRANSFORM_SIZE,
{
    TRANSFORM_SIZE as u32
}

/// The memory that a capability was handed, as a mathematical value.
pub open spec fn memory_view(memory: Option<&[u8]>) -> Option<Seq<u8>> {
    match memory {
        Some(bytes) => Some(bytes@),
        None => None,
    }
}

/// What `emit-text` reports for a guest named `name`.
pub open spec fn spec_text_report(name: Seq<char>, memory: Option<Seq<u8>>, offset: int) -> Result<
    ReportView,
    HostError,
> {
    match memory {
        None => Err(HostError::MissingMemory),
        Some(bytes) => match spec_read_text(bytes, offset) {
            Ok(text) => Ok(ReportView::Text { extension: name, text }),
            Err(error) => Err(error),
        },
    }
}

/// What `emit-transform` reports for a guest named `name`.
pub open spec fn spec_transform_report(
    name: Seq<char>,
    memory: Option<Seq<u8>>,
    offset: int,
) -> Result<ReportView, HostError> {
    match memory {
        None => Err(HostError::MissingMemory),
        Some(bytes) => if offset + TRANSFORM_SIZE > bytes.len() {
            Err(HostError::OutOfBounds)
        } else {
            Ok(
                ReportView::Transform {
                    extension: name,
                    transform: Transform::spec_decode(
                        spec_read(bytes, offset, TRANSFORM_SIZE as int),
                    ),
                },
            )
        },
    }
}

/// What `produce-transform` returns and leaves in guest memory: the offset
/// that the guest's allocator gave, and the memory with the host's
/// transform written there.
pub open spec fn spec_produce(allocation: GuestAllocation, memory: Option<Seq<u8>>) -> Result<
    (u32, Seq<u8>),
    HostError,
> {
    match allocation {
        GuestAllocation::Missing => Err(HostError::MissingAllocator),
        GuestAllocation::Failed => Err(HostError::AllocationFailed),
        GuestAllocation::At(offset) => match memory {
            None => Err(HostError::MissingMemory),
            Some(bytes) => if offset + TRANSFORM_SIZE > bytes.len() {
                Err(HostError::OutOfBounds)
            } else {
                Ok((offset, spec_write(bytes, offset as int, spec_host_transform().spec_encode())))
            },
        },
    }
}

/// A context as a mathematical value.
pub struct ContextView {
    /// The display name of the extension.
    pub name: Seq<char>,
    /// What the capabilities have reported, oldest first.
    pub reports: Seq<ReportView>,
    /// Why the run failed, if a capability failed.
    pub failure: Option<HostError>,
}

impl ContextView {
    /// Whether every report in the log carries the name of this context.
    pub open spec fn spec_tagged(self) -> bool {
        forall|i: int|
            0 <= i < self.reports.len() ==> (#[trigger] self.reports[i]).extension() == self.name
    }

    /// The context after one more report.
    pub open spec fn with_report(self, report: ReportView) -> ContextView {
        ContextView { name: self.name, reports: self.reports.push(report), failure: self.failure }
    }

    /// The context after a capability failed. The first failure is the one
    /// that ends the run, so it is the one that stays.
    pub open spec fn with_failure(self, error: HostError) -> ContextView {
        ContextView {
            name: self.name,
            reports: self.reports,
            failure: if self.failure is Some {
                self.failure
            } else {
                Some(error)
            },
        }
    }

    /// The context after a capability that reports on success.
    pub open spec fn conclude(self, outcome: Result<ReportView, HostError>) -> ContextView {
        match outcome {
            Ok(report) => self.with_report(report),
            Err(error) => self.with_failure(error),
        }
    }

    /// No capability renames the instance, takes a report back or replaces
    /// the failure that was recorded first: the log only grows at its end.
    pub proof fn lemma_conclude_keeps_the_log(self, outcome: Result<ReportView, HostError>)
        ensures
            self.conclude(outcome).name == self.name,
            self.reports.is_prefix_of(self.conclude(outcome).reports),
            self.failure is Some ==> self.conclude(outcome).failure == self.failure,
    {
    }

    /// The context after `identify`.
    pub open spec fn identify(self) -> ContextView {
        self.with_report(ReportView::Identify { extension: self.name })
    }

    /// The context after `count` calls of `identify` in a row.
    pub open spec fn identify_times(self, count: nat) -> ContextView
        decreases count,
    {
        if count == 0 {
            self
        } else {
            self.identify_times((count - 1) as nat).identify()
        }
    }
}

/// The state that belongs to one instance: its name, what its capabilities
/// have reported so far, and the failure that ended its run, if any.
pub struct ClientExtensionState {
    extension_name: String,
    reports: Vec<Report>,
    failure: Option<HostError>,
}

impl View for ClientExtensionState {
    type V = ContextView;

    closed spec fn view(&self) -> ContextView {
        ContextView {
            name: self.extension_name@,
            reports: reports_view(self.reports@),
            failure: self.failure,
        }
    }
}

impl ClientExtensionState {
    /// Every report in the log carries the name of this context: a context
    /// reports under no other name.
    #[verifier::type_invariant]
    spec fn tagged(&self) -> bool {
        forall|i: int|
            0 <= i < self.reports@.len() ==> (#[trigger] self.reports@[i])@.extension()
                == self.extension_name@
    }

    /// A fresh context for an extension called `name`.
    pub fn new(name: &str) -> (state: ClientExtensionState)
        ensures
            state@ == (ContextView { name: name@, reports: Seq::empty(), failure: None }),
    {
        let state = ClientExtensionState {
            extension_name: String::from_str(name),
            reports: Vec::new(),
            failure: None,
        };
        assert(reports_view(state.reports@) =~= Seq::empty());
        state
    }

    /// The display name of the extension.
    pub fn name(&self) -> (name: &str)
        ensures
            name@ == self@.name,
    {
        self.extension_name.as_str()
    }

    /// What the capabilities have reported so far, oldest first. Every one
    /// of them carries the name of this context.
    pub fn reports(&self) -> (reports: &Vec<Report>)
        ensures
            reports_view(reports@) == self@.reports,
            self@.spec_tagged(),
    {
        proof {
            use_type_invariant(self);
            assert forall|i: int| 0 <= i < self@.reports.len() implies (
            #[trigger] self@.reports[i]).extension() == self@.name by {
                assert(self@.reports[i] == self.reports@[i]@);
            }
        }
        &self.reports
    }

    /// Why the run failed, if a capability failed.
    pub fn failure(&self) -> (failure: Option<HostError>)
        ensures
            failure == self@.failure,
    {
        self.failure
    }

    /// Hands out the reports and starts the log afresh.
    pub fn take_reports(&mut self) -> (reports: Vec<Report>)
        ensures
            reports_view(reports@) == old(self)@.reports,
            old(self)@.spec_tagged(),
            final(self)@ == (ContextView {
                name: old(self)@.name,
                reports: Seq::empty(),
                failure: old(self)@.failure,
            }),
    {
        proof {
            use_type_invariant(&*self);
            assert forall|i: int| 0 <= i < self@.reports.len() implies (
            #[trigger] self@.reports[i]).extension() == self@.name by {
                assert(self@.reports[i] == self.reports@[i]@);
            }
        }
        let mut reports: Vec<Report> = Vec::new();
        std::mem::swap(&mut self.reports, &mut reports);
        assert(reports_view(self.reports@) =~= Seq::empty());
        reports
    }

    /// Appends a report that carries the name of this context.
    fn push_report(&mut self, report: Report)
        requires
            report@.extension() == old(self)@.name,
        ensures
            final(self)@ == old(self)@.with_report(report@),
    {
        proof {
            use_type_invariant(&*self);
        }
        let mut log: Vec<Report> = Vec::new();
        std::mem::swap(&mut self.reports, &mut log);
        log.push(report);
        self.reports = log;
        assert(reports_view(self.reports@) =~= reports_view(old(self).reports@).push(report@));
    }

    /// Records why a capability failed.
    fn record_failure(&mut self, error: HostError)
        ensures
            final(self)@ == old(self)@.with_failure(error),
    {
        proof {
            use_type_invariant(&*self);
        }
        if self.failure.is_none() {
            self.failure = Some(error);
        }
    }

    /// `identify`: reports that the guest called, under the instance's name.
    /// Touches no guest memory and cannot fail.
    pub fn identify(&mut self)
        ensures
            final(self)@ == old(self)@.identify(),
    {
        let extension = self.extension_name.clone();
        self.push_report(Report::Identify { extension });
    }

    /// `emit-text`: reads the nul-terminated UTF-8 text at `offset` in the
    /// guest's memory and reports it under the instance's name.
    ///
    /// `memory` is the instance's exported linear memory, `None` if it
    /// exports none. On failure nothing is reported and the cause is
    /// recorded.
    pub fn emit_text(&mut self, memory: Option<&[u8]>, offset: u32) -> (result: Result<
        (),
        HostError,
    >)
        ensures
            final(self)@ == old(self)@.conclude(
                spec_text_report(old(self)@.name, memory_view(memory), offset as int),
            ),
            match spec_text_report(old(self)@.name, memory_view(memory), offset as int) {
                Ok(_) => result is Ok,
                Err(error) => result == Err::<(), HostError>(error),
            },
    {
        let read = match memory {
            Some(bytes) => read_text(bytes, offset as usize),
            None => Err(HostError::MissingMemory),
        };
        match read {
            Ok(text) => {
                let extension = self.extension_name.clone();
                self.push_report(Report::Text { extension, text });
                Ok(())
            },
            Err(error) => {
                self.record_failure(error);
                Err(error)
            },
        }
    }

    /// `emit-transform`: reads exactly `TRANSFORM_SIZE` bytes at `offset` in
    /// the guest's memory, decodes them as the layout prescribes and reports
    /// the fields under the instance's name.
    ///
    /// Nothing tells whether the guest really placed a transform there: the
    /// bytes are taken for one. On failure nothing is reported and the cause
    /// is recorded.
    pub fn emit_transform(&mut self, memory: Option<&[u8]>, offset: u32) -> (result: Result<
        (),
        HostError,
    >)
        ensures
            final(self)@ == old(self)@.conclude(
                spec_transform_report(old(self)@.name, memory_view(memory), offset as int),
            ),
            match spec_transform_report(old(self)@.name, memory_view(memory), offset as int) {
                Ok(_) => result is Ok,
                Err(error) => result == Err::<(), HostError>(error),
            },
    {
        let read = match memory {
            Some(bytes) => read_bytes(bytes, offset as usize, TRANSFORM_SIZE),
            None => Err(HostError::MissingMemory),
        };
        match read {
            Ok(bytes) => {
                let transform = Transform::decode(bytes.as_slice()).unwrap();
                let extension = self.extension_name.clone();
                self.push_report(Report::Transform { extension, transform });
                Ok(())
            },
            Err(error) => {
                self.record_failure(error);
                Err(error)
            },
        }
    }

    /// `produce-transform`: writes the host's transform into the buffer that
    /// the guest's allocator provided and returns the buffer's offset.
    ///
    /// `allocation` is what the guest's allocator answered when asked for
    /// [`transform_request`] bytes, `memory` the instance's exported linear
    /// memory. Reports nothing. On failure the memory is left as it was and
    /// the cause is recorded.
    pub fn produce_transform(
        &mut self,
        allocation: GuestAllocation,
        memory: Option<&mut [u8]>,
    ) -> (result: Result<u32, HostError>)
        ensures
            match spec_produce(
                allocation,
                match memory {
                    Some(bytes) => Some(bytes@),
                    None => None,
                },
            ) {
                Ok((offset, written)) => {
                    &&& result == Ok::<u32, HostError>(offset)
                    &&& final(self)@ == old(self)@
                    &&& memory matches Some(bytes) && final(bytes)@ == written
                },
                Err(error) => {
                    &&& result == Err::<u32, HostError>(error)
                    &&& final(self)@ == old(self)@.with_failure(error)
                    &&& memory matches Some(bytes) ==> final(bytes)@ == bytes@
                },
            },
    {
        let written = match allocation {
            GuestAllocation::Missing => Err(HostError::MissingAllocator),
            GuestAllocation::Failed => Err(HostError::AllocationFailed),
            GuestAllocation::At(offset) => match memory {
                None => Err(HostError::MissingMemory),
                Some(bytes) => {
                    let encoded = host_transform().encode();
                    match write_bytes(bytes, offset as usize, encoded.as_slice()) {
                        Ok(()) => Ok(offset),
                        Err(error) => Err(error),
                    }
                },
            },
        };
        match written {
            Ok(offset) => Ok(offset),
            Err(error) => {
                self.record_failure(error);
                Err(error)
            },
        }
    }
}

/// A transform that the host produced is the transform that the guest emits
/// when it hands the returned offset straight back: nothing changes in
/// transit.
pub proof fn lemma_produce_then_emit(
    name: Seq<char>,
    allocation: GuestAllocation,
    memory: Seq<u8>,
)
    requires
        spec_produce(allocation, Some(memory)) is Ok,
    ensures
        ({
            let (offset, written) = spec_produce(allocation, Some(memory))->Ok_0;
            spec_transform_report(name, Some(written), offset as int) == Ok::<
                ReportView,
                HostError,
            >(ReportView::Transform { extension: name, transform: spec_host_transform() })
        }),
{
    let (offset, written) = spec_produce(allocation, Some(memory))->Ok_0;
    let encoded = spec_host_transform().spec_encode();
    spec_host_transform().lemma_round_trip();
    lemma_read_after_write(memory, offset as int, encoded);
}

/// `count` calls of `identify` in a row leave `count` more reports, each
/// under the instance's name and behind all the earlier ones; the name and
/// the recorded failure stay as they were.
pub proof fn lemma_identify_times(context: ContextView, count: nat)
    ensures
        context.identify_times(count).name == context.name,
        context.identify_times(count).failure == context.failure,
        context.identify_times(count).reports == context.reports + Seq::new(
            count,
            |i: int| (ReportView::Identify { extension: context.name }),
        ),
    decreases count,
{
    let expected = context.reports + Seq::new(
        count,
        |i: int| (ReportView::Identify { extension: context.name }),
    );
    if count == 0 {
        assert(context.reports =~= expected);
    } else {
        lemma_identify_times(context, (count - 1) as nat);
        assert(context.identify_times(count).reports =~= expected);
    }
}

} // verus!
