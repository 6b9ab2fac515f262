use vstd::prelude::*;

use crate::error::FetchError;
use crate::gzip::{decode_gzip, gunzip_spec};
use crate::names::{data_link, join_spec, link_spec, strip_gz_spec, RESOURCE_COUNT};
use crate::plan::{plan_resource, ResourcePlan};
use crate::url_name::file_name_spec;

verus! {

/// Where a run stands with its current resource.
pub enum Stage {
    /// Its bytes are being fetched into the compressed file.
    Fetching,
    /// The compressed file is being read back.
    ReadingBack,
    /// The decompressed bytes are being written.
    Writing(Vec<u8>),
    /// Every resource is done.
    Finished,
    /// The run stopped on this error.
    Failed(FetchError),
}

/// `Stage` in the abstract.
pub enum StageModel {
    Fetching,
    ReadingBack,
    Writing(Seq<u8>),
    Finished,
    Failed(FetchError),
}

impl View for Stage {
    type V = StageModel;

    open spec fn view(&self) -> StageModel {
        match self {
            Stage::Fetching => StageModel::Fetching,
            Stage::ReadingBack => StageModel::ReadingBack,
            Stage::Writing(b) => StageModel::Writing(b@),
            Stage::Finished => StageModel::Finished,
            Stage::Failed(e) => StageModel::Failed(*e),
        }
    }
}

/// What came of the outside work that the last action asked for.
pub enum Event {
    /// The fetch or the write succeeded.
    Done,
    /// The compressed file was read back and holds these bytes.
    Bytes(Vec<u8>),
    /// The outside work failed in this way.
    Failed(FetchError),
}

/// `Event` in the abstract.
pub enum EventModel {
    Done,
    Bytes(Seq<u8>),
    Failed(FetchError),
}

impl View for Event {
    type V = EventModel;

    open spec fn view(&self) -> EventModel {
        match self {
            Event::Done => EventModel::Done,
            Event::Bytes(b) => EventModel::Bytes(b@),
            Event::Failed(e) => EventModel::Failed(*e),
        }
    }
}

/// The outside work that a run asks for next.
pub enum Action {
    /// Fetch `url` and write its body to a new file at `path`, replacing any.
    Fetch { url: String, path: String },
    /// Read the whole file at `path`.
    ReadBack { path: String },
    /// Write `bytes` to a new file at `path`, replacing any.
    Write { path: String, bytes: Vec<u8> },
    /// Nothing is left to do: the run succeeded.
    Finished,
    /// The run stopped on this error.
    Abort(FetchError),
}

/// `Action` in the abstract.
pub enum ActionModel {
    Fetch { url: Seq<char>, path: Seq<char> },
    ReadBack { path: Seq<char> },
    Write { path: Seq<char>, bytes: Seq<u8> },
    Finished,
    Abort(FetchError),
}

impl View for Action {
    type V = ActionModel;

    open spec fn view(&self) -> ActionModel {
        match self {
            Action::Fetch { url, path } => ActionModel::Fetch { url: url@, path: path@ },
            Action::ReadBack { path } => ActionModel::ReadBack { path: path@ },
            Action::Write { path, bytes } => ActionModel::Write { path: path@, bytes: bytes@ },
            Action::Finished => ActionModel::Finished,
            Action::Abort(e) => ActionModel::Abort(*e),
        }
    }
}

/// A run in the abstract: the target directory, the resource at hand and
/// where it stands.
pub struct SessionModel {
    pub dir: Seq<char>,
    pub index: nat,
    pub stage: StageModel,
}

/// The file name of resource `i`.
pub open spec fn name_of(i: int) -> Seq<char> {
    file_name_spec(link_spec(i))->Ok_0
}

/// Whether a run in this stage is still working on its current resource.
pub open spec fn is_active(s: StageModel) -> bool {
    s is Fetching || s is ReadingBack || s is Writing
}

/// The run that starts on resource `i`: it is finished past the last one,
/// and fails at once where the resource's URL names no file.
pub open spec fn enter_spec(dir: Seq<char>, i: nat) -> SessionModel {
    if i >= RESOURCE_COUNT {
        SessionModel { dir, index: RESOURCE_COUNT as nat, stage: StageModel::Finished }
    } else {
        match file_name_spec(link_spec(i as int)) {
            Ok(_) => SessionModel { dir, index: i, stage: StageModel::Fetching },
            Err(e) => SessionModel { dir, index: i, stage: StageModel::Failed(e) },
        }
    }
}

/// The run after the read-back bytes were decompressed, to `d` or to an error.
pub open spec fn after_decode(m: SessionModel, d: Result<Seq<u8>, FetchError>) -> SessionModel {
    if m.stage is ReadingBack {
        match d {
            Ok(bytes) => SessionModel { stage: StageModel::Writing(bytes), ..m },
            Err(e) => SessionModel { stage: StageModel::Failed(e), ..m },
        }
    } else {
        m
    }
}

/// The result of decompressing `b`.
pub open spec fn decoded_spec(b: Seq<u8>) -> Result<Seq<u8>, FetchError> {
    match gunzip_spec(b) {
        Some(d) => Ok(d),
        None => Err(FetchError::DecodeError),
    }
}

/// One move of a run on event `e`. A failure stops the run where it stands;
/// a finished or failed run, and an event that does not answer the current
/// stage, leave it as it is.
pub open spec fn step(m: SessionModel, e: EventModel) -> SessionModel {
    match e {
        EventModel::Failed(err) => if is_active(m.stage) {
            SessionModel { stage: StageModel::Failed(err), ..m }
        } else {
            m
        },
        EventModel::Done => match m.stage {
            StageModel::Fetching => SessionModel { stage: StageModel::ReadingBack, ..m },
            StageModel::Writing(_) => enter_spec(m.dir, m.index + 1),
            _ => m,
        },
        EventModel::Bytes(b) => after_decode(m, decoded_spec(b)),
    }
}

/// What a run asks for in state `m`.
pub open spec fn action_spec(m: SessionModel) -> ActionModel {
    match m.stage {
        StageModel::Fetching => ActionModel::Fetch {
            url: link_spec(m.index as int),
            path: join_spec(m.dir, name_of(m.index as int)),
        },
        StageModel::ReadingBack => ActionModel::ReadBack {
            path: join_spec(m.dir, name_of(m.index as int)),
        },
        StageModel::Writing(bytes) => ActionModel::Write {
            path: join_spec(m.dir, strip_gz_spec(name_of(m.index as int))),
            bytes,
        },
        StageModel::Finished => ActionModel::Finished,
        StageModel::Failed(e) => ActionModel::Abort(e),
    }
}

/// A download run over the fixed resources, one at a time, in order.
/// It decides; the caller does the fetching, reading and writing that each
/// `Action` asks for and reports back with an `Event`.
pub struct Session {
    dir: String,
    index: usize,
    plan: Option<ResourcePlan>,
    stage: Stage,
}

impl View for Session {
    type V = SessionModel;

    closed spec fn view(&self) -> SessionModel {
        SessionModel { dir: self.dir@, index: self.index as nat, stage: self.stage@ }
    }
}

impl Session {
    /// The index stays in range and, while a resource is at hand, the plan
    /// held is the one for it.
    pub closed spec fn wf(&self) -> bool {
        &&& self.index <= RESOURCE_COUNT
        &&& self.stage is Finished ==> self.index == RESOURCE_COUNT
        &&& is_active(self.stage@) ==> {
            &&& self.index < RESOURCE_COUNT
            &&& file_name_spec(link_spec(self.index as int)) is Ok
            &&& self.plan matches Some(p) && p.describes(
                self.dir@,
                link_spec(self.index as int),
                name_of(self.index as int),
            )
        }
    }

    fn enter(dir: String, i: usize) -> (r: Session)
        requires
            i <= RESOURCE_COUNT,
        ensures
            r.wf(),
            r@ == enter_spec(dir@, i as nat),
    {
        if i >= RESOURCE_COUNT {
            Session { dir, index: RESOURCE_COUNT, plan: None, stage: Stage::Finished }
        } else {
            match plan_resource(dir.as_str(), data_link(i)) {
                Ok(p) => Session { dir, index: i, plan: Some(p), stage: Stage::Fetching },
                Err(e) => Session { dir, index: i, plan: None, stage: Stage::Failed(e) },
            }
        }
    }

    /// Starts a run into directory `dir`; without one there is nothing to do.
    pub fn new(dir: Option<String>) -> (r: Result<Session, FetchError>)
        ensures
            dir is None ==> r == Err::<Session, FetchError>(FetchError::MissingArgument),
            dir matches Some(d) ==> (r matches Ok(s) && s.wf() && s@ == enter_spec(d@, 0)),
    {
        match dir {
            None => Err(FetchError::MissingArgument),
            Some(d) => Ok(Session::enter(d, 0)),
        }
    }

    /// The outside work to do next.
    pub fn next_action(&self) -> (r: Action)
        requires
            self.wf(),
        ensures
            r@ == action_spec(self@),
    {
        match &self.stage {
            Stage::Fetching => {
                let p = self.plan.as_ref().unwrap();
                Action::Fetch { url: p.url.clone(), path: p.local_path.clone() }
            },
            Stage::ReadingBack => {
                let p = self.plan.as_ref().unwrap();
                Action::ReadBack { path: p.local_path.clone() }
            },
            Stage::Writing(bytes) => {
                let p = self.plan.as_ref().unwrap();
                Action::Write { path: p.decompressed_path.clone(), bytes: bytes.clone() }
            },
            Stage::Finished => Action::Finished,
            Stage::Failed(e) => Action::Abort(*e),
        }
    }

    /// Takes in the outcome of decompressing the bytes read back.
    pub fn on_decoded(&mut self, decoded: Result<Vec<u8>, FetchError>)
        requires
            old(self).wf(),
        ensures
            final(self).wf(),
            final(self)@ == after_decode(
                old(self)@,
                match decoded {
                    Ok(v) => Ok(v@),
                    Err(e) => Err(e),
                },
            ),
    {
        if let Stage::ReadingBack = self.stage {
            match decoded {
                Ok(v) => {
                    self.stage = Stage::Writing(v);
                },
                Err(e) => {
                    self.stage = Stage::Failed(e);
                },
            }
        }
    }

    /// Moves the run on by what came of the last action.
    pub fn on_event(&mut self, ev: Event)
        requires
            old(self).wf(),
        ensures
            final(self).wf(),
            final(self)@ == step(old(self)@, ev@),
    {
        match ev {
            Event::Failed(e) => {
                match self.stage {
                    Stage::Fetching | Stage::ReadingBack | Stage::Writing(_) => {
                        self.stage = Stage::Failed(e);
                    },
                    _ => {},
                }
            },
            Event::Done => {
                match self.stage {
                    Stage::Fetching => {
                        self.stage = Stage::ReadingBack;
                    },
                    Stage::Writing(_) => {
                        let dir = self.dir.clone();
                        *self = Session::enter(dir, self.index + 1);
                    },
                    _ => {},
                }
            },
            Event::Bytes(b) => {
                if let Stage::ReadingBack = self.stage {
                    let decoded = decode_gzip(b.as_slice());
                    self.on_decoded(decoded);
                }
            },
        }
    }

    /// The target directory.
    pub fn directory(&self) -> (r: &String)
        ensures
            r@ == self@.dir,
    {
        &self.dir
    }

    /// The position of the resource at hand in download order.
    pub fn index(&self) -> (r: usize)
        ensures
            r == self@.index,
    {
        self.index
    }

    /// Whether the run ended, well or not.
    pub fn is_done(&self) -> (r: bool)
        ensures
            r == !is_active(self@.stage),
    {
        match self.stage {
            Stage::Finished | Stage::Failed(_) => true,
            _ => false,
        }
    }
}

} // verus!
