//! The walk over the listings: which piece of outside work comes next, and
//! how the outcome of the last one steers the walk.
//!
//! The walk starts at each address of a list in turn. A page is fetched,
//! planned, and its decisions carried out in order; a sub-folder is created
//! and then its listing walked before the page goes on. A failed page fetch,
//! a failed download or a failed sub-listing ends the walk of the current
//! start address (it fails every page above it), and the walk goes on with the
//! next start address. A failed folder creation is only reported: the
//! sub-listing is still visited.
use vstd::prelude::*;

use crate::listing::{download_root, root_folder, DownloadOptions, EntryAction, Step};
use crate::page::{listing_tables, page_steps, plan_page};

verus! {

/// The next piece of work, in terms of the texts it involves.
pub enum Order {
    /// Fetch the listing at `url`; its files go under `folder`.
    VisitPage { url: Seq<char>, folder: Seq<char> },
    /// Report `link` and create the local folder `dir` for it.
    CreateFolder { link: Seq<char>, dir: Seq<char> },
    /// Report `link` and download it into the local folder `folder`.
    Download { link: Seq<char>, folder: Seq<char> },
    /// Report `link`, a sub-folder left alone.
    PassDirectory { link: Seq<char> },
    /// Report `link`, an image not downloaded.
    PassImage { link: Seq<char> },
    /// Report `link`, a file not downloaded.
    PassDocument { link: Seq<char> },
    /// Report `link`, an entry of unknown kind: the page address `page_url`
    /// followed by `href`.
    Unrecognised { link: Seq<char>, page_url: Seq<char>, href: Seq<char> },
    /// Nothing is left to do.
    Finished,
}

/// The next piece of work for the program to carry out.
#[derive(Debug, PartialEq, Eq)]
pub enum Command {
    /// Fetch the listing at `url`; its files go under `folder`.
    VisitPage { url: String, folder: String },
    /// Report `link` and create the local folder `dir` for it.
    CreateFolder { link: String, dir: String },
    /// Report `link` and download it into the local folder `folder`.
    Download { link: String, folder: String },
    /// Report `link`, a sub-folder left alone.
    PassDirectory { link: String },
    /// Report `link`, an image not downloaded.
    PassImage { link: String },
    /// Report `link`, a file not downloaded.
    PassDocument { link: String },
    /// Report `link`, an entry of unknown kind: the page address `page_url`
    /// followed by `href`.
    Unrecognised { link: String, page_url: String, href: String },
    /// Nothing is left to do.
    Finished,
}

impl DeepView for Command {
    type V = Order;

    open spec fn deep_view(&self) -> Order {
        match self {
            Command::VisitPage { url, folder } => Order::VisitPage { url: url@, folder: folder@ },
            Command::CreateFolder { link, dir } => Order::CreateFolder { link: link@, dir: dir@ },
            Command::Download { link, folder } => Order::Download { link: link@, folder: folder@ },
            Command::PassDirectory { link } => Order::PassDirectory { link: link@ },
            Command::PassImage { link } => Order::PassImage { link: link@ },
            Command::PassDocument { link } => Order::PassDocument { link: link@ },
            Command::Unrecognised { link, page_url, href } => Order::Unrecognised {
                link: link@,
                page_url: page_url@,
                href: href@,
            },
            Command::Finished => Order::Finished,
        }
    }
}

/// How the last piece of work ended, in terms of the texts it involves.
pub enum Reply {
    /// It was carried out (a report, a folder created, a file downloaded).
    Done,
    /// It failed.
    Failed,
    /// The page asked for was fetched; this is its HTML.
    Loaded(Seq<char>),
}

/// How the last piece of work ended.
#[derive(Debug, PartialEq, Eq)]
pub enum Outcome {
    /// It was carried out (a report, a folder created, a file downloaded).
    Done,
    /// It failed.
    Failed,
    /// The page asked for was fetched; this is its HTML.
    Loaded(String),
}

impl DeepView for Outcome {
    type V = Reply;

    open spec fn deep_view(&self) -> Reply {
        match self {
            Outcome::Done => Reply::Done,
            Outcome::Failed => Reply::Failed,
            Outcome::Loaded(html) => Reply::Loaded(html@),
        }
    }
}

/// Where the walk stands.
pub struct WalkState {
    /// The user's answers.
    pub options: DownloadOptions,
    /// The start addresses not yet begun.
    pub starts: Seq<Seq<char>>,
    /// The pages being walked, the innermost last: each page's address and
    /// the decisions about it not yet carried out.
    pub frames: Seq<(Seq<char>, Seq<Step>)>,
    /// A sub-folder whose local folder was just asked for: its address and
    /// the folder its files go under.
    pub descend_to: Option<(Seq<char>, Seq<char>)>,
    /// The page whose fetch was just asked for: its address and folder.
    pub visiting: Option<(Seq<char>, Seq<char>)>,
}

/// The work that carries out a decision taken on the page at `page_url`.
pub open spec fn order_for(step: Step, page_url: Seq<char>) -> Order {
    match step {
        Step::Descend { link, local_dir, .. } => Order::CreateFolder { link, dir: local_dir },
        Step::PassDirectory { link } => Order::PassDirectory { link },
        Step::FetchImage { link, folder } => Order::Download { link, folder },
        Step::FetchDocument { link, folder } => Order::Download { link, folder },
        Step::PassImage { link } => Order::PassImage { link },
        Step::PassDocument { link } => Order::PassDocument { link },
        Step::Unrecognised { link, href } => Order::Unrecognised { link, page_url, href },
    }
}

/// The sub-listing that a decision leads into, if it is one to enter.
pub open spec fn descent_of(step: Step) -> Option<(Seq<char>, Seq<char>)> {
    match step {
        Step::Descend { link, folder, .. } => Some((link, folder)),
        _ => None,
    }
}

/// The next piece of work, and where the walk then stands: the sub-listing
/// whose folder was just created; else the next decision of the innermost
/// page that has any left (pages with none left are done); else the next
/// start address; else nothing.
pub open spec fn take_next(w: WalkState) -> (Order, WalkState)
    decreases w.frames.len(),
{
    match w.descend_to {
        Some(target) => (
            Order::VisitPage { url: target.0, folder: target.1 },
            WalkState { descend_to: None, visiting: Some(target), ..w },
        ),
        None => if w.frames.len() == 0 {
            if w.starts.len() == 0 {
                (Order::Finished, w)
            } else {
                (
                    Order::VisitPage { url: w.starts[0], folder: download_root() },
                    WalkState {
                        starts: w.starts.drop_first(),
                        visiting: Some((w.starts[0], download_root())),
                        ..w
                    },
                )
            }
        } else {
            let top = w.frames.last();
            if top.1.len() == 0 {
                take_next(WalkState { frames: w.frames.drop_last(), ..w })
            } else {
                let step = top.1[0];
                (
                    order_for(step, top.0),
                    WalkState {
                        frames: w.frames.update(w.frames.len() - 1, (top.0, top.1.drop_first())),
                        descend_to: descent_of(step),
                        ..w
                    },
                )
            }
        },
    }
}

/// Where the walk stands once the outcome of the last piece of work is known.
/// A failure other than that of a folder creation abandons every page being
/// walked; a fetched page is planned and walked next.
pub open spec fn after_reply(w: WalkState, reply: Reply) -> WalkState {
    match reply {
        Reply::Failed => if w.descend_to is Some {
            w
        } else {
            WalkState { frames: Seq::<(Seq<char>, Seq<Step>)>::empty(), visiting: None, ..w }
        },
        Reply::Loaded(html) => match w.visiting {
            Some(page) => WalkState {
                frames: w.frames.push(
                    (page.0, page_steps(page.0, page.1, listing_tables(html).unwrap(), w.options)),
                ),
                visiting: None,
                ..w
            },
            None => w,
        },
        Reply::Done => WalkState { visiting: None, ..w },
    }
}

/// One step of the walk: the outcome of the last piece of work is taken in,
/// and the next piece of work chosen.
pub open spec fn walk_step(w: WalkState, reply: Reply) -> (Order, WalkState) {
    take_next(after_reply(w, reply))
}

/// A folder whose creation failed is still visited: the walk goes on into
/// the sub-listing just as if the folder had been created.
pub proof fn law_failed_folder_still_visited(w: WalkState)
    requires
        w.descend_to is Some,
    ensures
        walk_step(w, Reply::Failed) == walk_step(w, Reply::Done),
        walk_step(w, Reply::Failed).0 == (Order::VisitPage {
            url: w.descend_to.unwrap().0,
            folder: w.descend_to.unwrap().1,
        }),
{
}

/// Any other failure (of a page fetch or of a download) abandons every page
/// being walked: the walk goes on with the next start address, or finishes.
pub proof fn law_failure_abandons_start(w: WalkState)
    requires
        w.descend_to is None,
    ensures
        walk_step(w, Reply::Failed).1.frames.len() == 0,
        walk_step(w, Reply::Failed).0 == (if w.starts.len() == 0 {
            Order::Finished
        } else {
            Order::VisitPage { url: w.starts[0], folder: download_root() }
        }),
        walk_step(w, Reply::Failed).1.starts == (if w.starts.len() == 0 {
            w.starts
        } else {
            w.starts.drop_first()
        }),
{
}

/// Once a page asked for is fetched, its first decision is the next piece of
/// work (where its plan has any), taken on that page.
pub proof fn law_fetched_page_walked_next(w: WalkState, html: Seq<char>)
    requires
        w.descend_to is None,
        w.visiting is Some,
        page_steps(
            w.visiting.unwrap().0,
            w.visiting.unwrap().1,
            listing_tables(html).unwrap(),
            w.options,
        ).len() > 0,
    ensures
        walk_step(w, Reply::Loaded(html)).0 == order_for(
            page_steps(
                w.visiting.unwrap().0,
                w.visiting.unwrap().1,
                listing_tables(html).unwrap(),
                w.options,
            )[0],
            w.visiting.unwrap().0,
        ),
{
}

/// Entering a sub-folder: a `Descend` decision first has its local folder
/// created, and then, whether that worked or not, the sub-listing at the
/// decision's address is fetched with the decision's own folder (the page's
/// folder followed by the first pieces of the link), and that folder is what
/// the sub-listing's plan puts its files under.
pub proof fn law_descend_enters_step_folder(w: WalkState, html: Seq<char>)
    requires
        w.descend_to is None,
        w.frames.len() > 0,
        w.frames.last().1.len() > 0,
    ensures
        w.frames.last().1[0] matches Step::Descend { link, local_dir, folder } ==> {
            let after_create = take_next(w).1;
            let after_visit = walk_step(after_create, Reply::Done).1;
            &&& take_next(w).0 == Order::CreateFolder { link, dir: local_dir }
            &&& walk_step(after_create, Reply::Done).0 == Order::VisitPage { url: link, folder }
            &&& walk_step(after_create, Reply::Failed).0 == Order::VisitPage { url: link, folder }
            &&& after_visit.visiting == Some((link, folder))
            &&& after_reply(after_visit, Reply::Loaded(html)).frames.last() == (
                link,
                page_steps(link, folder, listing_tables(html).unwrap(), w.options),
            )
        },
{
}

/// A page being walked: its address, its plan, and how many of the plan's
/// decisions have been taken up.
struct Frame {
    url: String,
    plan: Vec<EntryAction>,
    next: usize,
}

impl Frame {
    closed spec fn state(&self) -> (Seq<char>, Seq<Step>) {
        (self.url@, self.plan.deep_view().skip(self.next as int))
    }
}

/// The walk over a list of start addresses.
pub struct Walk {
    options: DownloadOptions,
    starts: Vec<String>,
    next_start: usize,
    frames: Vec<Frame>,
    descend_to: Option<(String, String)>,
    visiting: Option<(String, String)>,
}

impl View for Walk {
    type V = WalkState;

    closed spec fn view(&self) -> WalkState {
        WalkState {
            options: self.options,
            starts: self.starts.deep_view().skip(self.next_start as int),
            frames: Seq::new(self.frames.len() as nat, |i: int| self.frames[i].state()),
            descend_to: self.descend_to.deep_view(),
            visiting: self.visiting.deep_view(),
        }
    }
}

impl Walk {
    /// The walk's own bookkeeping is consistent.
    pub closed spec fn wf(&self) -> bool {
        &&& self.next_start <= self.starts.len()
        &&& forall|i: int| 0 <= i < self.frames.len() ==> #[trigger] self.frames[i].next <= self.frames[i].plan.len()
    }

    /// A walk over `start_urls`, in order, with the user's answers `options`.
    pub fn new(start_urls: Vec<String>, options: DownloadOptions) -> (walk: Walk)
        ensures
            walk.wf(),
            walk@ == (WalkState {
                options,
                starts: start_urls.deep_view(),
                frames: Seq::<(Seq<char>, Seq<Step>)>::empty(),
                descend_to: None,
                visiting: None,
            }),
    {
        let walk = Walk {
            options,
            starts: start_urls,
            next_start: 0,
            frames: Vec::new(),
            descend_to: None,
            visiting: None,
        };
        assert(walk@.starts =~= start_urls.deep_view());
        assert(walk@.frames =~= Seq::<(Seq<char>, Seq<Step>)>::empty());
        walk
    }

    /// Takes in how the last piece of work ended and chooses the next one.
    /// The first call takes `Outcome::Done`.
    pub fn next(&mut self, outcome: Outcome) -> (command: Command)
        requires
            old(self).wf(),
        ensures
            final(self).wf(),
            (command.deep_view(), final(self)@) == walk_step(old(self)@, outcome.deep_view()),
    {
        match outcome {
            Outcome::Failed => {
                if self.descend_to.is_none() {
                    self.frames = Vec::new();
                    self.visiting = None;
                    assert(self@.frames =~= Seq::<(Seq<char>, Seq<Step>)>::empty());
                }
            },
            Outcome::Loaded(html) => {
                let ghost before = self@;
                match self.visiting.take() {
                    Some(page) => {
                        let plan = plan_page(page.0.as_str(), page.1.as_str(), html.as_str(), &self.options);
                        let ghost frame_state = (page.0@, plan.deep_view());
                        assert(plan.deep_view().skip(0) =~= plan.deep_view());
                        self.frames.push(Frame { url: page.0, plan, next: 0 });
                        assert(self@.frames =~= before.frames.push(frame_state));
                    },
                    None => {},
                }
            },
            Outcome::Done => {
                self.visiting = None;
            },
        }
        self.take_next()
    }

    fn take_next(&mut self) -> (command: Command)
        requires
            old(self).wf(),
        ensures
            final(self).wf(),
            (command.deep_view(), final(self)@) == take_next(old(self)@),
    {
        if let Some(target) = self.descend_to.take() {
            let url = target.0.clone();
            let folder = target.1.clone();
            self.visiting = Some(target);
            return Command::VisitPage { url, folder };
        }
        loop
            invariant
                self.wf(),
                self.descend_to is None,
                take_next(self@) == take_next(old(self)@),
            decreases self.frames.len(),
        {
            let n = self.frames.len();
            if n == 0 {
                if self.next_start < self.starts.len() {
                    let url = self.starts[self.next_start].clone();
                    let root = root_folder();
                    let folder = root_folder();
                    let ghost before = self@;
                    self.next_start = self.next_start + 1;
                    self.visiting = Some((url.clone(), root));
                    proof {
                        assert(before.starts[0] == url@);
                        assert(self@.starts =~= before.starts.drop_first());
                    }
                    return Command::VisitPage { url, folder };
                } else {
                    return Command::Finished;
                }
            }
            let ghost before = self@;
            if self.frames[n - 1].next >= self.frames[n - 1].plan.len() {
                self.frames.pop();
                assert(self@.frames =~= before.frames.drop_last());
            } else {
                let mut frame = self.frames.pop().unwrap();
                let ghost steps = frame.plan.deep_view();
                let command = command_for(&frame.plan[frame.next], &frame.url);
                let descend = descent_for(&frame.plan[frame.next]);
                proof {
                    assert(steps.skip(frame.next as int)[0] == frame.plan[frame.next as int].deep_view());
                    assert(steps.skip(frame.next as int).drop_first() =~= steps.skip(frame.next + 1));
                }
                frame.next = frame.next + 1;
                self.frames.push(frame);
                self.descend_to = descend;
                assert(self@.frames =~= before.frames.update(
                    n - 1,
                    (before.frames[n - 1].0, before.frames[n - 1].1.drop_first()),
                ));
                return command;
            }
        }
    }
}

/// The work that carries out `action`, taken on the page at `page_url`.
fn command_for(action: &EntryAction, page_url: &String) -> (command: Command)
    ensures
        command.deep_view() == order_for(action.deep_view(), page_url@),
{
    match action {
        EntryAction::Descend { link, local_dir, .. } => Command::CreateFolder {
            link: link.clone(),
            dir: local_dir.clone(),
        },
        EntryAction::PassDirectory { link } => Command::PassDirectory { link: link.clone() },
        EntryAction::FetchImage { link, folder } => Command::Download {
            link: link.clone(),
            folder: folder.clone(),
        },
        EntryAction::FetchDocument { link, folder } => Command::Download {
            link: link.clone(),
            folder: folder.clone(),
        },
        EntryAction::PassImage { link } => Command::PassImage { link: link.clone() },
        EntryAction::PassDocument { link } => Command::PassDocument { link: link.clone() },
        EntryAction::Unrecognised { link, href } => Command::Unrecognised {
            link: link.clone(),
            page_url: page_url.clone(),
            href: href.clone(),
        },
    }
}

/// The sub-listing that `action` leads into, if it is one to enter.
fn descent_for(action: &EntryAction) -> (target: Option<(String, String)>)
    ensures
        target.deep_view() == descent_of(action.deep_view()),
{
    match action {
        EntryAction::Descend { link, folder, .. } => Some((link.clone(), folder.clone())),
        _ => None,
    }
}

} // verus!
