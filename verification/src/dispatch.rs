//! Plans one run: which actions are due, on which sources, in which order.

use crate::settings::app_settings::{names_distinct, Settings, Source};
use vstd::prelude::*;
use vstd::string::*;

verus! {

/// One action of a run. A number is the index of a source in the settings.
#[derive(Debug, Clone, Copy, PartialEq, Eq, Structural)]
pub enum Step {
    /// Authorize interactively to Dropbox.
    AuthDropbox,
    /// Sync the files of a source to the storage directory.
    Sync(usize),
    /// Dump the MySQL databases of this host.
    MysqlDump,
    /// Export what is stored of a source.
    Export(usize),
    /// Extract the latest export of a source.
    Unexport(usize),
    /// Upload the exports of a source to Dropbox.
    UploadDropbox(usize),
    /// Upload the exports of a source to Google Drive.
    UploadGdrive(usize),
}

/// Why no run could be planned.
#[derive(Debug, Clone, Copy, PartialEq, Eq, Structural)]
pub enum DispatchError {
    /// The source named as the active one is not among the sources.
    UnknownSource,
}

/// The kinds of action that are done source by source.
#[derive(Debug, Clone, Copy, PartialEq, Eq, Structural)]
pub enum PerSource {
    Sync,
    Export,
    Unexport,
    UploadDropbox,
    UploadGdrive,
}

/// The step that does an action of this kind on the source at `index`.
pub open spec fn step_on(kind: PerSource, index: usize) -> Step {
    match kind {
        PerSource::Sync => Step::Sync(index),
        PerSource::Export => Step::Export(index),
        PerSource::Unexport => Step::Unexport(index),
        PerSource::UploadDropbox => Step::UploadDropbox(index),
        PerSource::UploadGdrive => Step::UploadGdrive(index),
    }
}

/// The steps that do an action of this kind on each of the sources, in their
/// order; none where the action is not due.
pub open spec fn steps_on(due: bool, kind: PerSource, sources: Seq<usize>) -> Seq<Step> {
    if due {
        Seq::new(sources.len(), |i: int| step_on(kind, sources[i]))
    } else {
        Seq::empty()
    }
}

/// The one step of an action that is done once; none where it is not due.
pub open spec fn step_once(due: bool, step: Step) -> Seq<Step> {
    if due {
        seq![step]
    } else {
        Seq::empty()
    }
}

/// The source at `i` is the first of that name.
pub open spec fn is_first_named(sources: Seq<(String, Source)>, name: Seq<char>, i: int) -> bool {
    &&& 0 <= i < sources.len()
    &&& sources[i].0@ == name
    &&& forall|j: int| 0 <= j < i ==> (#[trigger] sources[j]).0@ != name
}

/// Where each source has a name of its own, a source of a given name is the
/// first of that name, and the only one.
pub proof fn lemma_named_once(sources: Seq<(String, Source)>, name: Seq<char>, i: int, j: int)
    requires
        names_distinct(sources),
        0 <= i < sources.len(),
        0 <= j < sources.len(),
        sources[i].0@ == name,
        sources[j].0@ == name,
    ensures
        i == j,
        is_first_named(sources, name, i),
{
    if i < j {
        assert(sources[i].0@ != sources[j].0@);
    } else if j < i {
        assert(sources[j].0@ != sources[i].0@);
    }
    assert forall|k: int| 0 <= k < i implies (#[trigger] sources[k]).0@ != name by {
        assert(sources[k].0@ != sources[i].0@);
    }
}

/// No source has that name.
pub open spec fn none_named(sources: Seq<(String, Source)>, name: Seq<char>) -> bool {
    forall|j: int| 0 <= j < sources.len() ==> (#[trigger] sources[j]).0@ != name
}

/// The indices `picked` are the sources of the run: all of them, in their
/// order, where no source is named as the active one; else that one alone.
pub open spec fn is_selection(settings: Settings, picked: Seq<usize>) -> bool {
    if settings.action.source@.len() == 0 {
        picked == Seq::new(settings.sources@.len(), |i: int| i as usize)
    } else {
        picked.len() == 1 && is_first_named(
            settings.sources@,
            settings.action.source@,
            picked[0] as int,
        )
    }
}

/// The steps of a run on the sources `picked`, in the order in which they
/// are done: authorization, sync, database dump, export, unexport, upload to
/// Dropbox, upload to Google Drive.
pub open spec fn plan_of(settings: Settings, picked: Seq<usize>) -> Seq<Step> {
    step_once(settings.action.auth_dropbox, Step::AuthDropbox) + steps_on(
        settings.action.sync,
        PerSource::Sync,
        picked,
    ) + step_once(settings.action.mysql_dump, Step::MysqlDump) + steps_on(
        settings.action.export,
        PerSource::Export,
        picked,
    ) + steps_on(settings.action.unexport, PerSource::Unexport, picked) + steps_on(
        settings.action.upload_dropbox,
        PerSource::UploadDropbox,
        picked,
    ) + steps_on(settings.action.upload_gdrive, PerSource::UploadGdrive, picked)
}

/// Picks the sources of the run.
pub fn select_sources(settings: &Settings) -> (r: Option<Vec<usize>>)
    ensures
        match r {
            Some(picked) => is_selection(*settings, picked@),
            None => settings.action.source@.len() > 0 && none_named(
                settings.sources@,
                settings.action.source@,
            ),
        },
{
    let mut picked: Vec<usize> = Vec::new();
    let count = settings.sources.len();
    if settings.action.source.as_str().unicode_len() == 0 {
        let mut i: usize = 0;
        while i < count
            invariant
                i <= count,
                count == settings.sources@.len(),
                picked@ == Seq::new(i as nat, |k: int| k as usize),
            decreases count - i,
        {
            picked.push(i);
            assert(picked@ =~= Seq::new((i + 1) as nat, |k: int| k as usize));
            i = i + 1;
        }
        Some(picked)
    } else {
        let mut i: usize = 0;
        while i < count
            invariant
                i <= count,
                count == settings.sources@.len(),
                picked@.len() == 0,
                settings.action.source@.len() > 0,
                forall|j: int| 0 <= j < i ==> (#[trigger] settings.sources@[j]).0@
                    != settings.action.source@,
            decreases count - i,
        {
            if settings.sources[i].0 == settings.action.source {
                picked.push(i);
                return Some(picked);
            }
            i = i + 1;
        }
        None
    }
}

/// Appends the steps of one kind of action on each of the sources.
fn push_steps_on(plan: &mut Vec<Step>, due: bool, kind: PerSource, picked: &Vec<usize>)
    ensures
        final(plan)@ == old(plan)@ + steps_on(due, kind, picked@),
{
    if due {
        let ghost before = plan@;
        let mut i: usize = 0;
        while i < picked.len()
            invariant
                i <= picked.len(),
                plan@ == before + Seq::new(i as nat, |k: int| step_on(kind, picked@[k])),
            decreases picked.len() - i,
        {
            let index = picked[i];
            let step = match kind {
                PerSource::Sync => Step::Sync(index),
                PerSource::Export => Step::Export(index),
                PerSource::Unexport => Step::Unexport(index),
                PerSource::UploadDropbox => Step::UploadDropbox(index),
                PerSource::UploadGdrive => Step::UploadGdrive(index),
            };
            plan.push(step);
            assert(plan@ =~= before + Seq::new((i + 1) as nat, |k: int| step_on(kind, picked@[k])));
            i = i + 1;
        }
        assert(plan@ =~= before + steps_on(due, kind, picked@));
    } else {
        assert(plan@ =~= old(plan)@ + steps_on(due, kind, picked@));
    }
}

/// Appends the step of an action that is done once.
fn push_step_once(plan: &mut Vec<Step>, due: bool, step: Step)
    ensures
        final(plan)@ == old(plan)@ + step_once(due, step),
{
    if due {
        plan.push(step);
        assert(plan@ =~= old(plan)@ + step_once(due, step));
    } else {
        assert(plan@ =~= old(plan)@ + step_once(due, step));
    }
}

/// Plans all the actions that the settings ask for, in a sensible order, on
/// the active source or, where none is named, on all of them. The run is
/// refused where the active source is not among the sources.
pub fn dispatch(settings: &Settings) -> (r: Result<Vec<Step>, DispatchError>)
    ensures
        match r {
            Ok(plan) => exists|picked: Seq<usize>| #[trigger]
                is_selection(*settings, picked) && plan@ == plan_of(*settings, picked),
            Err(DispatchError::UnknownSource) => settings.action.source@.len() > 0 && none_named(
                settings.sources@,
                settings.action.source@,
            ),
        },
{
    match select_sources(settings) {
        None => Err(DispatchError::UnknownSource),
        Some(picked) => {
            let mut plan: Vec<Step> = Vec::new();
            push_step_once(&mut plan, settings.action.auth_dropbox, Step::AuthDropbox);
            push_steps_on(&mut plan, settings.action.sync, PerSource::Sync, &picked);
            push_step_once(&mut plan, settings.action.mysql_dump, Step::MysqlDump);
            push_steps_on(&mut plan, settings.action.export, PerSource::Export, &picked);
            push_steps_on(&mut plan, settings.action.unexport, PerSource::Unexport, &picked);
            push_steps_on(
                &mut plan,
                settings.action.upload_dropbox,
                PerSource::UploadDropbox,
                &picked,
            );
            push_steps_on(&mut plan, settings.action.upload_gdrive, PerSource::UploadGdrive, &picked);
            assert(plan@ =~= plan_of(*settings, picked@));
            assert(is_selection(*settings, picked@));
            Ok(plan)
        },
    }
}

} // verus!
