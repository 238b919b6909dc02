use vstd::prelude::*;
use crate::status::{StatusColor, color_of, status_color};
use crate::worker::{CompressionOutcome, CompressionRequest};

verus! {

/// What the window holds, as mathematical values.
pub struct UiView {
    pub input_path: Option<Seq<char>>,
    pub output_path: Option<Seq<char>>,
    pub quality: int,
    pub busy: bool,
    pub status: Seq<char>,
}

/// One thing that happens to the window.
pub enum UiEvent {
    /// The open dialog returned a path.
    InputChosen(Seq<char>),
    /// The save dialog returned a path.
    OutputChosen(Seq<char>),
    /// The slider was moved to a value.
    QualitySet(int),
    /// The Compress button was clicked.
    CompressClicked,
    /// An outcome with this message came back from the worker.
    OutcomeReceived(Seq<char>),
}

pub open spec fn clamp_quality(q: int) -> int {
    if q < 1 {
        1
    } else if q > 100 {
        100
    } else {
        q
    }
}

/// The window a launch starts with.
pub open spec fn initial_view() -> UiView {
    UiView {
        input_path: None,
        output_path: None,
        quality: 80,
        busy: false,
        status: "Ready"@,
    }
}

/// The Compress button is enabled: both paths are chosen and nothing is in
/// flight.
pub open spec fn can_submit(v: UiView) -> bool {
    v.input_path is Some && v.output_path is Some && !v.busy
}

pub open spec fn valid(v: UiView) -> bool {
    1 <= v.quality <= 100
}

/// How one event changes the window.
pub open spec fn step(v: UiView, e: UiEvent) -> UiView {
    match e {
        UiEvent::InputChosen(p) => UiView { input_path: Some(p), status: "Input file selected"@, ..v },
        UiEvent::OutputChosen(p) => UiView {
            output_path: Some(p),
            status: "Output file selected"@,
            ..v
        },
        UiEvent::QualitySet(q) => UiView { quality: clamp_quality(q), ..v },
        UiEvent::CompressClicked => if can_submit(v) {
            UiView { busy: true, status: "Compressing..."@, ..v }
        } else {
            v
        },
        UiEvent::OutcomeReceived(m) => UiView { busy: false, status: m, ..v },
    }
}

/// The window after a sequence of events.
pub open spec fn run(v: UiView, es: Seq<UiEvent>) -> UiView
    decreases es.len(),
{
    if es.len() == 0 {
        v
    } else {
        step(run(v, es.drop_last()), es.last())
    }
}

/// How many requests the events send: clicks while the button is enabled.
pub open spec fn requests_sent(v: UiView, es: Seq<UiEvent>) -> int
    decreases es.len(),
{
    if es.len() == 0 {
        0
    } else {
        requests_sent(v, es.drop_last()) + if es.last() is CompressClicked && can_submit(
            run(v, es.drop_last()),
        ) {
            1int
        } else {
            0int
        }
    }
}

/// How many times the events take the window from busy to idle.
pub open spec fn returns_to_idle(v: UiView, es: Seq<UiEvent>) -> int
    decreases es.len(),
{
    if es.len() == 0 {
        0
    } else {
        returns_to_idle(v, es.drop_last()) + if run(v, es.drop_last()).busy && !run(v, es).busy {
            1int
        } else {
            0int
        }
    }
}

/// Every sequence of events keeps the quality within 1 to 100.
pub proof fn lemma_quality_stays_in_range(v: UiView, es: Seq<UiEvent>)
    requires
        valid(v),
    ensures
        valid(run(v, es)),
    decreases es.len(),
{
    if es.len() > 0 {
        lemma_quality_stays_in_range(v, es.drop_last());
    }
}

/// A click while a request is in flight changes nothing and sends nothing.
pub proof fn lemma_submit_rejected_while_busy(v: UiView)
    requires
        v.busy,
    ensures
        step(v, UiEvent::CompressClicked) == v,
        !can_submit(v),
{
}

/// Each request sent is matched by exactly one return from busy to idle,
/// except the one still in flight while the window is busy; so from an idle
/// window at most one request is ever outstanding.
pub proof fn lemma_one_return_to_idle_per_request(v: UiView, es: Seq<UiEvent>)
    ensures
        requests_sent(v, es) + (if v.busy {
            1int
        } else {
            0int
        }) == returns_to_idle(v, es) + (if run(v, es).busy {
            1int
        } else {
            0int
        }),
        !v.busy ==> 0 <= requests_sent(v, es) - returns_to_idle(v, es) <= 1,
    decreases es.len(),
{
    if es.len() > 0 {
        lemma_one_return_to_idle_per_request(v, es.drop_last());
    }
}

/// How many outcomes the events deliver.
pub open spec fn outcomes_received(es: Seq<UiEvent>) -> int
    decreases es.len(),
{
    if es.len() == 0 {
        0
    } else {
        outcomes_received(es.drop_last()) + if es.last() is OutcomeReceived {
            1int
        } else {
            0int
        }
    }
}

/// Each outcome arrives while a request is in flight, as the worker answers
/// only requests.
pub open spec fn outcomes_only_while_busy(v: UiView, es: Seq<UiEvent>) -> bool {
    forall|i: int| 0 <= i < es.len() && (#[trigger] es[i]) is OutcomeReceived ==> run(v, es.take(i)).busy
}

/// Where outcomes arrive only while a request is in flight, the requests sent
/// less the outcomes received is 1 while the window is busy and 0 while it is
/// idle: at most one request is ever outstanding.
pub proof fn lemma_outstanding_is_busy(v: UiView, es: Seq<UiEvent>)
    requires
        !v.busy,
        outcomes_only_while_busy(v, es),
    ensures
        requests_sent(v, es) - outcomes_received(es) == if run(v, es).busy {
            1int
        } else {
            0int
        },
    decreases es.len(),
{
    if es.len() > 0 {
        let prefix = es.drop_last();
        assert forall|i: int| 0 <= i < prefix.len() && (#[trigger] prefix[i]) is OutcomeReceived implies run(
            v,
            prefix.take(i),
        ).busy by {
            assert(prefix[i] == es[i]);
            assert(prefix.take(i) == es.take(i));
        }
        lemma_outstanding_is_busy(v, prefix);
        assert(es.take(es.len() - 1) == prefix);
        assert(es.last() == es[es.len() - 1]);
    }
}

/// Where every outcome that arrives carries a message, the status line is
/// never cleared to empty.
pub proof fn lemma_status_never_empty(v: UiView, es: Seq<UiEvent>)
    requires
        v.status.len() > 0,
        forall|i: int|
            0 <= i < es.len() && (#[trigger] es[i]) is OutcomeReceived ==> es[i]->OutcomeReceived_0.len()
                > 0,
    ensures
        run(v, es).status.len() > 0,
    decreases es.len(),
{
    reveal_strlit("Input file selected");
    reveal_strlit("Output file selected");
    reveal_strlit("Compressing...");
    if es.len() > 0 {
        let prefix = es.drop_last();
        assert forall|i: int|
            0 <= i < prefix.len() && (#[trigger] prefix[i]) is OutcomeReceived implies prefix[i]->OutcomeReceived_0.len()
                > 0 by {
            assert(prefix[i] == es[i]);
        }
        lemma_status_never_empty(v, prefix);
        assert(es.last() == es[es.len() - 1]);
    }
}

/// The presentation state of the single window.
pub struct UiState {
    input_path: Option<String>,
    output_path: Option<String>,
    quality: u8,
    busy: bool,
    status: String,
}

pub open spec fn opt_view(p: Option<String>) -> Option<Seq<char>> {
    match p {
        Some(s) => Some(s@),
        None => None,
    }
}

impl View for UiState {
    type V = UiView;

    closed spec fn view(&self) -> UiView {
        UiView {
            input_path: opt_view(self.input_path),
            output_path: opt_view(self.output_path),
            quality: self.quality as int,
            busy: self.busy,
            status: self.status@,
        }
    }
}

impl UiState {
    #[verifier::type_invariant]
    spec fn inv(&self) -> bool {
        1 <= self.quality <= 100
    }

    /// Empty paths, quality 80, idle, status `Ready`.
    pub fn new() -> (r: UiState)
        ensures
            r@ == initial_view(),
    {
        UiState {
            input_path: None,
            output_path: None,
            quality: 80,
            busy: false,
            status: String::from_str("Ready"),
        }
    }

    /// Stores the path that the open dialog returned.
    pub fn choose_input(&mut self, path: String)
        ensures
            final(self)@ == step(old(self)@, UiEvent::InputChosen(path@)),
    {
        proof {
            use_type_invariant(&*self);
        }
        self.input_path = Some(path);
        self.status = String::from_str("Input file selected");
    }

    /// Stores the path that the save dialog returned.
    pub fn choose_output(&mut self, path: String)
        ensures
            final(self)@ == step(old(self)@, UiEvent::OutputChosen(path@)),
    {
        proof {
            use_type_invariant(&*self);
        }
        self.output_path = Some(path);
        self.status = String::from_str("Output file selected");
    }

    /// Sets the quality, clamped to 1..=100.
    pub fn set_quality(&mut self, requested: i64)
        ensures
            final(self)@ == step(old(self)@, UiEvent::QualitySet(requested as int)),
    {
        let q: u8 = if requested < 1 {
            1
        } else if requested > 100 {
            100
        } else {
            requested as u8
        };
        self.quality = q;
    }

    /// Whether the Compress button is enabled.
    pub fn can_compress(&self) -> (r: bool)
        ensures
            r == can_submit(self@),
    {
        self.input_path.is_some() && self.output_path.is_some() && !self.busy
    }

    /// The Compress button was clicked: where it is enabled, the request to
    /// send, and the window turns busy; else nothing.
    pub fn submit(&mut self) -> (r: Option<CompressionRequest>)
        ensures
            final(self)@ == step(old(self)@, UiEvent::CompressClicked),
            r is Some == can_submit(old(self)@),
            r is Some ==> old(self)@.input_path == Some(r->0.input_path@) && old(self)@.output_path
                == Some(r->0.output_path@) && r->0.quality == old(self)@.quality,
    {
        proof {
            use_type_invariant(&*self);
        }
        if self.busy {
            return None;
        }
        match (&self.input_path, &self.output_path) {
            (Some(input), Some(output)) => {
                let request = CompressionRequest {
                    input_path: input.clone(),
                    output_path: output.clone(),
                    quality: self.quality,
                };
                self.busy = true;
                self.status = String::from_str("Compressing...");
                Some(request)
            },
            _ => None,
        }
    }

    /// An outcome came back: the window turns idle and shows its message.
    pub fn receive(&mut self, outcome: CompressionOutcome)
        ensures
            final(self)@ == step(old(self)@, UiEvent::OutcomeReceived(outcome.text())),
    {
        proof {
            use_type_invariant(&*self);
        }
        let message = match outcome {
            CompressionOutcome::Success(m) => m,
            CompressionOutcome::Failure(m) => m,
        };
        self.busy = false;
        self.status = message;
    }

    /// Once per frame: takes in what the result channel held, if anything.
    /// The result is the busy state once that outcome is taken: whether another
    /// frame must follow to keep polling, unless a click later in the frame
    /// sends a request.
    pub fn poll(&mut self, received: Option<CompressionOutcome>) -> (repaint: bool)
        ensures
            received is None ==> final(self)@ == old(self)@,
            received is Some ==> final(self)@ == step(
                old(self)@,
                UiEvent::OutcomeReceived(received->0.text()),
            ),
            repaint == final(self)@.busy,
    {
        match received {
            Some(outcome) => self.receive(outcome),
            None => {},
        }
        self.busy
    }

    pub fn input_path(&self) -> (r: &Option<String>)
        ensures
            opt_view(*r) == self@.input_path,
    {
        &self.input_path
    }

    pub fn output_path(&self) -> (r: &Option<String>)
        ensures
            opt_view(*r) == self@.output_path,
    {
        &self.output_path
    }

    pub fn quality(&self) -> (r: u8)
        ensures
            r == self@.quality,
            1 <= r <= 100,
    {
        proof {
            use_type_invariant(self);
        }
        self.quality
    }

    pub fn is_busy(&self) -> (r: bool)
        ensures
            r == self@.busy,
    {
        self.busy
    }

    pub fn status(&self) -> (r: &String)
        ensures
            r@ == self@.status,
    {
        &self.status
    }

    /// The color of the status line.
    pub fn status_color(&self) -> (r: StatusColor)
        ensures
            r == color_of(self@.status),
    {
        status_color(self.status.as_str())
    }
}

/// The line under a picker: the chosen path, or `No file selected`.
pub fn path_label(path: &Option<String>) -> (r: String)
    ensures
        r@ == match opt_view(*path) {
            Some(p) => p,
            None => "No file selected"@,
        },
{
    match path {
        Some(p) => p.clone(),
        None => String::from_str("No file selected"),
    }
}

} // verus!
