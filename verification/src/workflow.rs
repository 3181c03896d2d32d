//! The scaffolding orchestration workflow: destination resolution, conflict
//! handling, template materialization, version-control initialization with
//! classified error handling, and result reporting.
//!
//! The workflow is a state machine. Each step consumes one event — the
//! outcome of the side effect last requested — and yields the directives to
//! perform next. The surrounding program performs a directive (a filesystem
//! check, a prompt, a removal, the materializer, the repository
//! initializer, a notification) and feeds the outcome back in as the next
//! event. Every decision the workflow makes is therefore stated and checked
//! here, while all side effects stay outside.

use vstd::prelude::*;

use crate::config::Config;
use crate::config::default_decimals;
use crate::config::default_endowment;
use crate::config::default_symbol;
use crate::template::Template;
use crate::template::display_of;
use crate::vcs::VcsError;
use crate::vcs::spec_identity_missing;

verus! {

/// The inputs of one scaffolding invocation, as validated by the command
/// line surface: a non-empty project name, a template, the three optional
/// token options, and an optional base path.
pub struct NewParachainCommand {
    pub name: String,
    pub template: Template,
    pub symbol: Option<String>,
    pub decimals: Option<u8>,
    pub initial_endowment: Option<String>,
    pub path: Option<String>,
}

/// Why a workflow failed: the removal of an existing destination did not
/// complete, or the materializer itself failed.
#[derive(Clone, Copy, Debug, PartialEq, Eq, Structural)]
pub enum Failure {
    RemovalFailed,
    MaterializationFailed,
}

/// Where the workflow stands: which outcome it is waiting for, or which
/// terminal state it reached. `Cancelled` and `Completed` are successful
/// terminal states; `Failed` is the error terminal state.
#[derive(Debug, PartialEq)]
pub enum Phase {
    CheckingExistence,
    AwaitingConfirmation,
    AwaitingRemoval,
    AwaitingMaterialization,
    AwaitingVcsInit { tag: Option<String> },
    Cancelled,
    Failed { failure: Failure },
    Completed { tag: Option<String>, vcs_guidance: bool },
}

/// The outcome of the side effect the workflow last requested.
#[derive(Debug, PartialEq)]
pub enum Event {
    ExistenceChecked { exists: bool },
    ConfirmationAnswered { accepted: bool },
    RemovalDone,
    RemovalFailed,
    MaterializationDone { tag: Option<String> },
    MaterializationFailed,
    VcsInitDone,
    VcsInitFailed { error: VcsError },
}

/// A user-facing notification. Rendering is left to the caller; the
/// workflow decides only which notice is due and with which data.
#[derive(Debug, PartialEq)]
pub enum Message {
    Intro { name: String, template_name: String },
    CancelledExisting { path: String },
    IdentityGuidance,
    VcsWarning,
    GenerationComplete,
    Version { tag: String },
    Success { path: String },
}

/// A side effect the workflow asks its caller to perform.
#[derive(Debug, PartialEq)]
pub enum Directive {
    CheckExists { path: String },
    AskRemoveConfirmation { path: String },
    RemoveDir { path: String },
    Materialize { template: Template, path: String, config: Config },
    InitRepo { path: String, commit_message: String },
    Notify { message: Message },
}

/// A scaffolding workflow in progress: the resolved destination and
/// configuration, fixed for the whole invocation, and the current phase.
pub struct Workflow {
    pub name: String,
    pub template: Template,
    pub dest: String,
    pub config: Config,
    pub phase: Phase,
}

/// The resolved destination: the base path joined with the project name if
/// a base path was supplied, else the name alone, relative to the working
/// directory.
pub open spec fn spec_destination(cmd: NewParachainCommand) -> Seq<char> {
    match cmd.path {
        Some(p) => p@ + "/"@ + cmd.name@,
        None => cmd.name@,
    }
}

/// The token symbol the materializer is invoked with: the explicit one, or
/// the documented default.
pub open spec fn resolved_symbol(cmd: NewParachainCommand) -> Seq<char> {
    match cmd.symbol {
        Some(s) => s@,
        None => default_symbol(),
    }
}

/// The token decimals the materializer is invoked with: the explicit value,
/// or the documented default.
pub open spec fn resolved_decimals(cmd: NewParachainCommand) -> u8 {
    match cmd.decimals {
        Some(d) => d,
        None => default_decimals(),
    }
}

/// The endowment expression the materializer is invoked with: the explicit
/// one, or the documented default.
pub open spec fn resolved_endowment(cmd: NewParachainCommand) -> Seq<char> {
    match cmd.initial_endowment {
        Some(e) => e@,
        None => default_endowment(),
    }
}

/// Whether a phase is terminal: no further event is accepted there.
pub open spec fn is_terminal(p: Phase) -> bool {
    p is Cancelled || p is Failed || p is Completed
}

/// Which event a phase accepts: exactly the outcome of the side effect
/// requested on entering that phase.
pub open spec fn expects(p: Phase, e: Event) -> bool {
    match (p, e) {
        (Phase::CheckingExistence, Event::ExistenceChecked { .. }) => true,
        (Phase::AwaitingConfirmation, Event::ConfirmationAnswered { .. }) => true,
        (Phase::AwaitingRemoval, Event::RemovalDone) => true,
        (Phase::AwaitingRemoval, Event::RemovalFailed) => true,
        (Phase::AwaitingMaterialization, Event::MaterializationDone { .. }) => true,
        (Phase::AwaitingMaterialization, Event::MaterializationFailed) => true,
        (Phase::AwaitingVcsInit { .. }, Event::VcsInitDone) => true,
        (Phase::AwaitingVcsInit { .. }, Event::VcsInitFailed { .. }) => true,
        _ => false,
    }
}

/// The phase the workflow moves to on an event.
///
/// An existing destination leads to the confirmation prompt; a declined
/// confirmation cancels; an accepted one leads to removal. A removal or
/// materialization failure is fatal. A version-control failure is never
/// fatal: the workflow completes either way, recording whether the
/// identity-missing guidance was due.
pub open spec fn phase_after(p: Phase, e: Event) -> Phase {
    match (p, e) {
        (Phase::CheckingExistence, Event::ExistenceChecked { exists }) => if exists {
            Phase::AwaitingConfirmation
        } else {
            Phase::AwaitingMaterialization
        },
        (Phase::AwaitingConfirmation, Event::ConfirmationAnswered { accepted }) => if accepted {
            Phase::AwaitingRemoval
        } else {
            Phase::Cancelled
        },
        (Phase::AwaitingRemoval, Event::RemovalDone) => Phase::AwaitingMaterialization,
        (Phase::AwaitingRemoval, Event::RemovalFailed) => Phase::Failed {
            failure: Failure::RemovalFailed,
        },
        (Phase::AwaitingMaterialization, Event::MaterializationDone { tag }) => Phase::AwaitingVcsInit {
            tag,
        },
        (Phase::AwaitingMaterialization, Event::MaterializationFailed) => Phase::Failed {
            failure: Failure::MaterializationFailed,
        },
        (Phase::AwaitingVcsInit { tag }, Event::VcsInitDone) => Phase::Completed {
            tag,
            vcs_guidance: false,
        },
        (Phase::AwaitingVcsInit { tag }, Event::VcsInitFailed { error }) => Phase::Completed {
            tag,
            vcs_guidance: spec_identity_missing(error),
        },
        _ => p,
    }
}

/// Whether a directive is the materialization request of this workflow:
/// its own template, its resolved destination, its resolved configuration.
pub open spec fn is_materialize_for(w: Workflow, d: Directive) -> bool {
    d matches Directive::Materialize { template, path, config } && template == w.template
        && path@ == w.dest@ && config == w.config
}

/// The completion report: an optional leading notice (guidance or
/// warning), the completion notice, the version tag if one was returned,
/// and the success notice naming the destination — in that order, and
/// nothing else.
pub open spec fn report_directives(
    dest: Seq<char>,
    tag: Option<String>,
    note: Option<Message>,
    ds: Seq<Directive>,
) -> bool {
    let n: int = if note is Some {
        1int
    } else {
        0int
    };
    let v: int = if tag is Some {
        1int
    } else {
        0int
    };
    &&& ds.len() == n + 1 + v + 1
    &&& (note matches Some(m) ==> ds[0] == (Directive::Notify { message: m }))
    &&& ds[n] == (Directive::Notify { message: Message::GenerationComplete })
    &&& (tag matches Some(t) ==> ds[n + 1] matches Directive::Notify { message } && (
    message matches Message::Version { tag: tv } && tv@ == t@))
    &&& ds[n + 1 + v] matches Directive::Notify { message } && (message matches Message::Success {
        path,
    } && path@ == dest)
    &&& forall|i: int| 0 <= i < ds.len() ==> (#[trigger] ds[i]) is Notify
}

/// The directives one step issues: which side effects are requested on
/// each phase/event pair.
pub open spec fn directives_for(w: Workflow, e: Event, ds: Seq<Directive>) -> bool {
    match (w.phase, e) {
        (Phase::CheckingExistence, Event::ExistenceChecked { exists }) => if exists {
            ds.len() == 1 && (ds[0] matches Directive::AskRemoveConfirmation { path } && path@
                == w.dest@)
        } else {
            ds.len() == 1 && is_materialize_for(w, ds[0])
        },
        (Phase::AwaitingConfirmation, Event::ConfirmationAnswered { accepted }) => if accepted {
            ds.len() == 1 && (ds[0] matches Directive::RemoveDir { path } && path@ == w.dest@)
        } else {
            ds.len() == 1 && (ds[0] matches Directive::Notify { message } && (
            message matches Message::CancelledExisting { path } && path@ == w.dest@))
        },
        (Phase::AwaitingRemoval, Event::RemovalDone) => ds.len() == 1 && is_materialize_for(
            w,
            ds[0],
        ),
        (Phase::AwaitingRemoval, Event::RemovalFailed) => ds.len() == 0,
        (Phase::AwaitingMaterialization, Event::MaterializationDone { .. }) => ds.len() == 1 && (
        ds[0] matches Directive::InitRepo { path, commit_message } && path@ == w.dest@
            && commit_message@ == "initialized parachain"@),
        (Phase::AwaitingMaterialization, Event::MaterializationFailed) => ds.len() == 0,
        (Phase::AwaitingVcsInit { tag }, Event::VcsInitDone) => report_directives(
            w.dest@,
            tag,
            None,
            ds,
        ),
        (Phase::AwaitingVcsInit { tag }, Event::VcsInitFailed { error }) => report_directives(
            w.dest@,
            tag,
            if spec_identity_missing(error) {
                Some(Message::IdentityGuidance)
            } else {
                Some(Message::VcsWarning)
            },
            ds,
        ),
        _ => ds.len() == 0,
    }
}

/// A copy of an optional version tag, equal to the original.
fn clone_tag(t: &Option<String>) -> (r: Option<String>)
    ensures
        r == *t,
{
    match t {
        Some(s) => Some(s.clone()),
        None => None,
    }
}

/// Appends the completion report to `out`: the optional leading notice,
/// the completion notice, the version tag if present, the success notice.
fn push_report(dest: &String, tag: &Option<String>, note: Option<Message>, out: &mut Vec<
    Directive,
>)
    requires
        old(out)@.len() == 0,
    ensures
        report_directives(dest@, *tag, note, final(out)@),
{
    match note {
        Some(m) => out.push(Directive::Notify { message: m }),
        None => (),
    }
    out.push(Directive::Notify { message: Message::GenerationComplete });
    match tag {
        Some(t) => out.push(Directive::Notify { message: Message::Version { tag: t.clone() } }),
        None => (),
    }
    out.push(Directive::Notify { message: Message::Success { path: dest.clone() } });
}

impl NewParachainCommand {
    /// Resolves the destination path: the base path joined with the project
    /// name if a base path was supplied, else the name alone.
    pub fn destination_path(&self) -> (r: String)
        ensures
            r@ == spec_destination(*self),
    {
        match &self.path {
            Some(p) => p.clone().concat("/").concat(self.name.as_str()),
            None => self.name.clone(),
        }
    }

    /// Resolves the generation configuration, substituting the documented
    /// default for every absent field.
    pub fn resolved_config(&self) -> (r: Config)
        ensures
            r.symbol@ == resolved_symbol(*self),
            r.decimals == resolved_decimals(*self),
            r.initial_endowment@ == resolved_endowment(*self),
    {
        Config::resolve(&self.symbol, &self.decimals, &self.initial_endowment)
    }

    /// Begins the workflow: resolves the destination and the configuration
    /// once, announces the invocation, and requests the existence check of
    /// the destination. No other side effect is requested yet.
    pub fn start(&self) -> (r: (Workflow, Vec<Directive>))
        ensures
            r.0.name == self.name,
            r.0.template == self.template,
            r.0.dest@ == spec_destination(*self),
            r.0.config.symbol@ == resolved_symbol(*self),
            r.0.config.decimals == resolved_decimals(*self),
            r.0.config.initial_endowment@ == resolved_endowment(*self),
            r.0.phase == Phase::CheckingExistence,
            r.1@.len() == 2,
            r.1@[0] matches Directive::Notify { message } && (message matches Message::Intro {
                name,
                template_name,
            } && name@ == self.name@ && template_name@ == display_of(self.template)),
            r.1@[1] matches Directive::CheckExists { path } && path@ == spec_destination(*self),
    {
        let dest = self.destination_path();
        let config = self.resolved_config();
        let wf = Workflow {
            name: self.name.clone(),
            template: self.template,
            dest: dest.clone(),
            config,
            phase: Phase::CheckingExistence,
        };
        let mut ds: Vec<Directive> = Vec::new();
        ds.push(
            Directive::Notify {
                message: Message::Intro {
                    name: self.name.clone(),
                    template_name: String::from_str(self.template.display_name()),
                },
            },
        );
        ds.push(Directive::CheckExists { path: dest });
        (wf, ds)
    }
}

impl Workflow {
    /// Whether the workflow has reached a terminal phase.
    pub fn finished(&self) -> (r: bool)
        ensures
            r == is_terminal(self.phase),
    {
        match &self.phase {
            Phase::Cancelled => true,
            Phase::Failed { .. } => true,
            Phase::Completed { .. } => true,
            _ => false,
        }
    }

    /// Whether the current phase accepts this event.
    pub fn accepts(&self, e: &Event) -> (r: bool)
        ensures
            r == expects(self.phase, *e),
    {
        match (&self.phase, e) {
            (Phase::CheckingExistence, Event::ExistenceChecked { .. }) => true,
            (Phase::AwaitingConfirmation, Event::ConfirmationAnswered { .. }) => true,
            (Phase::AwaitingRemoval, Event::RemovalDone) => true,
            (Phase::AwaitingRemoval, Event::RemovalFailed) => true,
            (Phase::AwaitingMaterialization, Event::MaterializationDone { .. }) => true,
            (Phase::AwaitingMaterialization, Event::MaterializationFailed) => true,
            (Phase::AwaitingVcsInit { .. }, Event::VcsInitDone) => true,
            (Phase::AwaitingVcsInit { .. }, Event::VcsInitFailed { .. }) => true,
            _ => false,
        }
    }

    /// Advances the workflow by one event and returns the directives to
    /// perform next. The resolved name, template, destination and
    /// configuration never change; the phase moves as `phase_after` says,
    /// and the directives are exactly those of `directives_for`.
    pub fn step(&mut self, e: Event) -> (out: Vec<Directive>)
        requires
            expects(old(self).phase, e),
        ensures
            final(self).name == old(self).name,
            final(self).template == old(self).template,
            final(self).dest == old(self).dest,
            final(self).config == old(self).config,
            final(self).phase == phase_after(old(self).phase, e),
            directives_for(*old(self), e, out@),
    {
        let mut out: Vec<Directive> = Vec::new();
        match (&self.phase, &e) {
            (Phase::CheckingExistence, Event::ExistenceChecked { exists }) => {
                if *exists {
                    out.push(Directive::AskRemoveConfirmation { path: self.dest.clone() });
                    self.phase = Phase::AwaitingConfirmation;
                } else {
                    out.push(
                        Directive::Materialize {
                            template: self.template,
                            path: self.dest.clone(),
                            config: self.config.clone(),
                        },
                    );
                    self.phase = Phase::AwaitingMaterialization;
                }
            },
            (Phase::AwaitingConfirmation, Event::ConfirmationAnswered { accepted }) => {
                if *accepted {
                    out.push(Directive::RemoveDir { path: self.dest.clone() });
                    self.phase = Phase::AwaitingRemoval;
                } else {
                    out.push(
                        Directive::Notify {
                            message: Message::CancelledExisting { path: self.dest.clone() },
                        },
                    );
                    self.phase = Phase::Cancelled;
                }
            },
            (Phase::AwaitingRemoval, Event::RemovalDone) => {
                out.push(
                    Directive::Materialize {
                        template: self.template,
                        path: self.dest.clone(),
                        config: self.config.clone(),
                    },
                );
                self.phase = Phase::AwaitingMaterialization;
            },
            (Phase::AwaitingRemoval, Event::RemovalFailed) => {
                self.phase = Phase::Failed { failure: Failure::RemovalFailed };
            },
            (Phase::AwaitingMaterialization, Event::MaterializationDone { tag }) => {
                out.push(
                    Directive::InitRepo {
                        path: self.dest.clone(),
                        commit_message: String::from_str("initialized parachain"),
                    },
                );
                let t = clone_tag(tag);
                self.phase = Phase::AwaitingVcsInit { tag: t };
            },
            (Phase::AwaitingMaterialization, Event::MaterializationFailed) => {
                self.phase = Phase::Failed { failure: Failure::MaterializationFailed };
            },
            (Phase::AwaitingVcsInit { tag }, Event::VcsInitDone) => {
                let t = clone_tag(tag);
                push_report(&self.dest, &t, None, &mut out);
                self.phase = Phase::Completed { tag: t, vcs_guidance: false };
            },
            (Phase::AwaitingVcsInit { tag }, Event::VcsInitFailed { error }) => {
                let t = clone_tag(tag);
                let guidance = error.is_identity_missing();
                let note = if guidance {
                    Message::IdentityGuidance
                } else {
                    Message::VcsWarning
                };
                push_report(&self.dest, &t, Some(note), &mut out);
                self.phase = Phase::Completed { tag: t, vcs_guidance: guidance };
            },
            // every other phase/event pair is excluded by the precondition
            _ => {
                proof {
                    assert(false);
                }
            },
        }
        out
    }
}

/// Law: a terminal phase accepts no further event; once the workflow is
/// cancelled, failed or completed, no step can follow.
pub proof fn lemma_terminal_absorbs(p: Phase, e: Event)
    requires
        is_terminal(p),
    ensures
        !expects(p, e),
{
}

/// Law (conflict gate): declining the confirmation for an existing
/// destination cancels the workflow cleanly. The one directive issued is
/// the cancellation notice naming the destination; in particular, no
/// removal and no materialization is ever requested.
pub proof fn lemma_conflict_gate(w: Workflow, ds: Seq<Directive>)
    requires
        w.phase is AwaitingConfirmation,
        directives_for(w, Event::ConfirmationAnswered { accepted: false }, ds),
    ensures
        phase_after(w.phase, Event::ConfirmationAnswered { accepted: false }) is Cancelled,
        ds.len() == 1,
        ds[0] matches Directive::Notify { message } && (message matches Message::CancelledExisting {
            path,
        } && path@ == w.dest@),
        forall|i: int| 0 <= i < ds.len() ==> !((#[trigger] ds[i]) is Materialize),
        forall|i: int| 0 <= i < ds.len() ==> !((#[trigger] ds[i]) is RemoveDir),
{
}

/// Law (conflict resolution): accepting the confirmation for an existing
/// destination requests exactly the removal of that destination, and
/// nothing else; materialization is not requested in the same step, but
/// only once the removal has been reported successful.
pub proof fn lemma_conflict_resolution(w: Workflow, ds: Seq<Directive>)
    requires
        w.phase is AwaitingConfirmation,
        directives_for(w, Event::ConfirmationAnswered { accepted: true }, ds),
    ensures
        phase_after(w.phase, Event::ConfirmationAnswered { accepted: true }) is AwaitingRemoval,
        ds.len() == 1,
        ds[0] matches Directive::RemoveDir { path } && path@ == w.dest@,
        forall|i: int| 0 <= i < ds.len() ==> !((#[trigger] ds[i]) is Materialize),
{
}

/// Law (step ordering): a materialization directive is issued only where
/// the destination was found free, or where the removal of the existing
/// destination has just succeeded; a version-control initialization
/// directive is issued only where materialization has just succeeded.
pub proof fn lemma_step_ordering(w: Workflow, e: Event, ds: Seq<Directive>, i: int)
    requires
        directives_for(w, e, ds),
        0 <= i < ds.len(),
    ensures
        ds[i] is Materialize ==> (w.phase is CheckingExistence && (
        e matches Event::ExistenceChecked { exists } && !exists)) || (w.phase is AwaitingRemoval
            && e is RemovalDone),
        ds[i] is InitRepo ==> w.phase is AwaitingMaterialization && e is MaterializationDone,
{
}

/// Law (soft-failure continuation): a version-control failure classified
/// as identity-missing does not stop the workflow. It still completes; the
/// guidance notice comes first, and the success report naming the
/// destination is still the last directive.
pub proof fn lemma_soft_failure_continuation(w: Workflow, err: VcsError, ds: Seq<Directive>)
    requires
        w.phase is AwaitingVcsInit,
        spec_identity_missing(err),
        directives_for(w, Event::VcsInitFailed { error: err }, ds),
    ensures
        phase_after(w.phase, Event::VcsInitFailed { error: err }) matches Phase::Completed {
            vcs_guidance,
            ..
        } && vcs_guidance,
        ds.len() >= 3,
        ds[0] == (Directive::Notify { message: Message::IdentityGuidance }),
        ds[ds.len() - 1] matches Directive::Notify { message } && (
        message matches Message::Success { path } && path@ == w.dest@),
{
}

/// Law (fatal propagation): a materialization failure is fatal. The
/// workflow moves to the failed terminal state, issues no directive at all
/// — in particular it never requests version-control initialization — and
/// accepts no further event.
pub proof fn lemma_fatal_propagation(w: Workflow, ds: Seq<Directive>)
    requires
        w.phase is AwaitingMaterialization,
        directives_for(w, Event::MaterializationFailed, ds),
    ensures
        phase_after(w.phase, Event::MaterializationFailed) == (Phase::Failed {
            failure: Failure::MaterializationFailed,
        }),
        is_terminal(phase_after(w.phase, Event::MaterializationFailed)),
        ds.len() == 0,
{
}

} // verus!
