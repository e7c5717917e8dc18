//! A model of the host, for saying what an operation leaves behind.
//!
//! The model knows which paths exist and which permission bits were set,
//! and how the actions that the host performs change that. Nothing here is
//! executable: it is the ground on which the laws of the operations stand.

use vstd::prelude::*;
use vstd::string::*;

use crate::desktop::{spec_dir, spec_file, temp_name, FfmpegView};
use crate::models::{DownloadConfigView, DownloadProgress};
use crate::operation::{
    check_absent, downloaded, proceed, removed_nothing, spec_step, ActionView, DownloadView,
    EventView, OperationView, OutcomeView, Phase, StepView, EXECUTABLE_MODE,
};
use crate::platform::Platform;

verus! {

/// What the host's filesystem holds, as far as the operations care.
pub struct World {
    /// The paths at which something exists.
    pub present: Set<Seq<char>>,
    /// The permission bits that were set, by path.
    pub modes: Map<Seq<char>, u32>,
}

/// Whether `path` is `root` or lies below it.
pub open spec fn within(root: Seq<char>, path: Seq<char>) -> bool {
    path == root || (root + "/"@).is_prefix_of(path) || (root + "\\"@).is_prefix_of(path)
}

/// The world after the host has performed `action` and reported `event`.
/// An action that was not reported done changes nothing that is known.
pub open spec fn effect(world: World, action: ActionView, event: EventView) -> World {
    if event is Done {
        match action {
            ActionView::CreateDirAll { path } => World {
                present: world.present.insert(path),
                ..world
            },
            ActionView::CreateFile { path } => World {
                present: world.present.insert(path),
                ..world
            },
            ActionView::WriteFile { path, data } => World {
                present: world.present.insert(path),
                ..world
            },
            ActionView::RemoveFile { path } => World {
                present: world.present.remove(path),
                modes: world.modes.remove(path),
            },
            ActionView::RemoveDirAll { path } => World {
                present: world.present.filter(|p: Seq<char>| !within(path, p)),
                modes: world.modes.restrict(Set::new(|p: Seq<char>| !within(path, p))),
            },
            ActionView::SetMode { path, mode } => World {
                modes: world.modes.insert(path, mode),
                ..world
            },
            _ => world,
        }
    } else {
        world
    }
}

/// Whether `event` is a true answer to `action` in `world`: a question
/// whether a path exists is answered as the world has it.
pub open spec fn answers(world: World, action: ActionView, event: EventView) -> bool {
    action matches ActionView::Stat { path } ==> event == EventView::Exists(
        world.present.contains(path),
    )
}

/// An operation in its world: the last step taken, whose action is pending,
/// and what the filesystem holds.
pub struct Run {
    pub step: StepView,
    pub world: World,
}

/// The run after the host has performed the pending action and reported
/// `event`.
pub open spec fn advance(run: Run, event: EventView) -> Run {
    Run {
        step: spec_step(run.step.state, event),
        world: effect(run.world, run.step.action, event),
    }
}

/// The run after the host has reported `events`, one after the other.
pub open spec fn run_all(start: Run, events: Seq<EventView>) -> Run
    decreases events.len(),
{
    if events.len() == 0 {
        start
    } else {
        advance(run_all(start, events.drop_last()), events.last())
    }
}

/// Whether each of `events` is a true answer to the action that was pending
/// when it was reported.
pub open spec fn honest(start: Run, events: Seq<EventView>) -> bool
    decreases events.len(),
{
    if events.len() == 0 {
        true
    } else {
        let before = run_all(start, events.drop_last());
        honest(start, events.drop_last()) && answers(
            before.world,
            before.step.action,
            events.last(),
        )
    }
}

/// The sum of a list of lengths.
pub open spec fn total_len(lens: Seq<u64>) -> nat
    decreases lens.len(),
{
    if lens.len() == 0 {
        0
    } else {
        total_len(lens.drop_last()) + lens.last() as nat
    }
}

/// The events of chunks of these lengths.
pub open spec fn chunks(lens: Seq<u64>) -> Seq<EventView> {
    lens.map_values(|len: u64| EventView::Chunk { len })
}

/// The count of a download is the sum of its chunks: after chunks of any
/// lengths that the count can hold, the download has counted their sum, and
/// the progress that it last asked to have published says so, beside the
/// length that the server declared.
pub proof fn lemma_progress_counts(
    d: DownloadView,
    pending: ActionView,
    world: World,
    lens: Seq<u64>,
)
    requires
        d.phase == Phase::Receiving,
        lens.len() > 0,
        d.downloaded + total_len(lens) <= u64::MAX,
    ensures
        ({
            let start = Run {
                step: StepView { state: OperationView::Download(d), action: pending },
                world,
            };
            let count = (d.downloaded + total_len(lens)) as u64;
            run_all(start, chunks(lens)).step == proceed(
                DownloadView { downloaded: count, ..d },
                Phase::Receiving,
                ActionView::Receive {
                    progress: Some(DownloadProgress { downloaded: count, total: d.total }),
                },
            )
        }),
    decreases lens.len(),
{
    let start = Run {
        step: StepView { state: OperationView::Download(d), action: pending },
        world,
    };
    let events = chunks(lens);
    assert(events.drop_last() =~= chunks(lens.drop_last()));
    assert(events.last() == EventView::Chunk { len: lens.last() });
    if lens.len() == 1 {
        assert(total_len(lens.drop_last()) == 0);
        assert(run_all(start, events.drop_last()) == start);
    } else {
        lemma_progress_counts(d, pending, world, lens.drop_last());
    }
}

/// Whether the world holds a finished installation: the executable, made
/// executable where the platform has permission bits, and no temporary
/// file.
pub open spec fn installed(world: World, executable: Seq<char>, temp: Seq<char>, mode_bits: bool)
    -> bool {
    &&& world.present.contains(executable)
    &&& !world.present.contains(temp)
    &&& mode_bits ==> world.modes.contains_pair(executable, EXECUTABLE_MODE)
}

/// What holds of a download at every step: it keeps its paths, and towards
/// its end the world holds what the steps taken so far have made.
pub open spec fn download_inv(executable: Seq<char>, temp: Seq<char>, mode_bits: bool, run: Run)
    -> bool {
    match run.step.state {
        OperationView::Download(d) => {
            &&& d.executable_path == executable
            &&& d.temp_path == temp
            &&& d.mode_bits == mode_bits
            &&& match d.phase {
                Phase::Installing => run.step.action matches ActionView::WriteFile { path, data }
                    && path == executable,
                Phase::Cleaning => {
                    &&& run.step.action == ActionView::RemoveFile { path: temp }
                    &&& run.world.present.contains(executable)
                },
                Phase::Permitting => {
                    &&& run.step.action == ActionView::SetMode {
                        path: executable,
                        mode: EXECUTABLE_MODE,
                    }
                    &&& run.world.present.contains(executable)
                    &&& !run.world.present.contains(temp)
                },
                _ => true,
            }
        },
        OperationView::Finished => run.step.action matches ActionView::Finish(outcome) ==> {
            &&& outcome == OutcomeView::Download(downloaded(executable))
            &&& installed(run.world, executable, temp, mode_bits)
        },
        _ => false,
    }
}

proof fn lemma_download_inv_holds(
    executable: Seq<char>,
    temp: Seq<char>,
    mode_bits: bool,
    start: Run,
    events: Seq<EventView>,
)
    requires
        executable != temp,
        download_inv(executable, temp, mode_bits, start),
    ensures
        download_inv(executable, temp, mode_bits, run_all(start, events)),
    decreases events.len(),
{
    if events.len() > 0 {
        lemma_download_inv_holds(executable, temp, mode_bits, start, events.drop_last());
    }
}

/// The temporary file and the executable never share a path.
pub proof fn lemma_temp_is_not_executable(base: Seq<char>, platform: Platform)
    ensures
        spec_file(base, platform, temp_name()) != spec_file(
            base,
            platform,
            platform.spec_executable_name(),
        ),
{
    reveal_strlit("ffmpeg_download.tmp");
    reveal_strlit("ffmpeg");
    reveal_strlit("ffmpeg.exe");
    assert(spec_file(base, platform, temp_name()).len() != spec_file(
        base,
        platform,
        platform.spec_executable_name(),
    ).len());
}

/// A download that completes leaves the installation complete: whatever
/// the host reported on the way, once the download has finished with a
/// result, that result names the executable's path, the executable exists
/// there, it has been made executable where the platform has permission
/// bits, and no temporary file is left.
pub proof fn lemma_completed_download(
    f: FfmpegView,
    request: Option<DownloadConfigView>,
    world: World,
    events: Seq<EventView>,
)
    requires
        run_all(Run { step: f.download(request), world }, events).step.action is Finish,
    ensures
        f.platform() is Ok,
        f.executable_path() is Ok,
        f.file(temp_name()) is Ok,
        ({
            let end = run_all(Run { step: f.download(request), world }, events);
            let executable = f.executable_path()->Ok_0;
            let temp = f.file(temp_name())->Ok_0;
            &&& end.step.action == ActionView::Finish(
                OutcomeView::Download(downloaded(executable)),
            )
            &&& installed(end.world, executable, temp, f.platform()->Ok_0.spec_has_mode_bits())
        }),
{
    let start = Run { step: f.download(request), world };
    if f.platform() is Ok && f.app_data_dir is Ok {
        let p = f.platform()->Ok_0;
        let base = f.app_data_dir->Ok_0;
        let executable = spec_file(base, p, p.spec_executable_name());
        let temp = spec_file(base, p, temp_name());
        lemma_temp_is_not_executable(base, p);
        lemma_download_inv_holds(executable, temp, p.spec_has_mode_bits(), start, events);
    } else {
        lemma_failed_stays_failed(start, events);
    }
}

/// An operation that has failed stays failed.
proof fn lemma_failed_stays_failed(start: Run, events: Seq<EventView>)
    requires
        start.step.state is Finished,
        start.step.action is Fail,
    ensures
        run_all(start, events).step.state is Finished,
        run_all(start, events).step.action is Fail,
    decreases events.len(),
{
    if events.len() > 0 {
        lemma_failed_stays_failed(start, events.drop_last());
    }
}

/// What holds of a removal at every step, as long as the host answers
/// truly: it asks about and deletes the installation root only, and once it
/// has finished with a result, that result is a success and neither the
/// root nor `below`, which lies in it, exists any more.
pub open spec fn remove_inv(dir: Seq<char>, below: Seq<char>, run: Run) -> bool {
    match run.step.state {
        OperationView::RemoveStat { dir: asked } => {
            &&& asked == dir
            &&& run.step.action == ActionView::Stat { path: dir }
            &&& run.world.present.contains(below) ==> run.world.present.contains(dir)
        },
        OperationView::RemoveDelete => run.step.action == ActionView::RemoveDirAll { path: dir },
        OperationView::Finished => {
            ||| run.step.action is Fail
            ||| {
                &&& run.step.action matches ActionView::Finish(OutcomeView::Delete(response))
                &&& response.success
                &&& !run.world.present.contains(dir)
                &&& !run.world.present.contains(below)
            }
        },
        _ => false,
    }
}

/// What holds of a removal at every step where the installation root is
/// gone from the start: nothing is deleted, and a result says that there
/// was nothing to remove.
pub open spec fn remove_again_inv(dir: Seq<char>, run: Run) -> bool {
    &&& !run.world.present.contains(dir)
    &&& match run.step.state {
        OperationView::RemoveStat { dir: asked } => {
            &&& asked == dir
            &&& run.step.action == ActionView::Stat { path: dir }
        },
        OperationView::Finished => {
            ||| run.step.action is Fail
            ||| run.step.action == ActionView::Finish(OutcomeView::Delete(removed_nothing()))
        },
        _ => false,
    }
}

/// What holds of a check at every step where no executable exists from the
/// start: nothing is launched, and a result says that nothing is installed.
pub open spec fn check_absent_inv(executable: Seq<char>, run: Run) -> bool {
    &&& !run.world.present.contains(executable)
    &&& match run.step.state {
        OperationView::CheckStat { path } => {
            &&& path == executable
            &&& run.step.action == ActionView::Stat { path: executable }
        },
        OperationView::Finished => {
            ||| run.step.action is Fail
            ||| run.step.action == ActionView::Finish(OutcomeView::Check(check_absent()))
        },
        _ => false,
    }
}

proof fn lemma_remove_inv_holds(
    dir: Seq<char>,
    below: Seq<char>,
    start: Run,
    events: Seq<EventView>,
)
    requires
        within(dir, below),
        remove_inv(dir, below, start),
        honest(start, events),
    ensures
        remove_inv(dir, below, run_all(start, events)),
    decreases events.len(),
{
    if events.len() > 0 {
        lemma_remove_inv_holds(dir, below, start, events.drop_last());
    }
}

proof fn lemma_remove_again_inv_holds(dir: Seq<char>, start: Run, events: Seq<EventView>)
    requires
        remove_again_inv(dir, start),
        honest(start, events),
    ensures
        remove_again_inv(dir, run_all(start, events)),
    decreases events.len(),
{
    if events.len() > 0 {
        lemma_remove_again_inv_holds(dir, start, events.drop_last());
    }
}

proof fn lemma_check_absent_inv_holds(executable: Seq<char>, start: Run, events: Seq<EventView>)
    requires
        check_absent_inv(executable, start),
        honest(start, events),
    ensures
        check_absent_inv(executable, run_all(start, events)),
    decreases events.len(),
{
    if events.len() > 0 {
        lemma_check_absent_inv_holds(executable, start, events.drop_last());
    }
}

/// The executable lies in the installation root.
pub proof fn lemma_executable_is_within_root(base: Seq<char>, platform: Platform)
    ensures
        within(
            spec_dir(base, platform),
            spec_file(base, platform, platform.spec_executable_name()),
        ),
{
    reveal_strlit("/");
    reveal_strlit("\\");
    let dir = spec_dir(base, platform);
    let file = spec_file(base, platform, platform.spec_executable_name());
    let root = dir + platform.spec_separator();
    assert(file.subrange(0, root.len() as int) =~= root);
    assert(root.is_prefix_of(file));
}

/// Removing is idempotent: where a removal has finished with a result, that
/// result is a success, and a second removal that finishes with a result in
/// the world that the first one left reports that there was nothing to
/// remove. The host is taken to answer truly whether a path exists.
pub proof fn lemma_remove_twice(
    f: FfmpegView,
    world: World,
    first: Seq<EventView>,
    second: Seq<EventView>,
)
    requires
        honest(Run { step: f.remove(), world }, first),
        run_all(Run { step: f.remove(), world }, first).step.action is Finish,
        honest(
            Run { step: f.remove(), world: run_all(Run { step: f.remove(), world }, first).world },
            second,
        ),
        run_all(
            Run { step: f.remove(), world: run_all(Run { step: f.remove(), world }, first).world },
            second,
        ).step.action is Finish,
    ensures
        ({
            let once = run_all(Run { step: f.remove(), world }, first);
            let twice = run_all(Run { step: f.remove(), world: once.world }, second);
            &&& once.step.action matches ActionView::Finish(OutcomeView::Delete(response))
                && response.success
            &&& twice.step.action == ActionView::Finish(OutcomeView::Delete(removed_nothing()))
            &&& removed_nothing().success
        }),
{
    let start = Run { step: f.remove(), world };
    if f.dir() is Ok {
        let dir = f.dir()->Ok_0;
        lemma_remove_inv_holds(dir, dir, start, first);
        let once = run_all(start, first);
        lemma_remove_again_inv_holds(dir, Run { step: f.remove(), world: once.world }, second);
    } else {
        lemma_failed_stays_failed(start, first);
    }
}

/// After a removal nothing is installed: where a removal has finished with
/// a result, a check that finishes with a result in the world that the
/// removal left reports no binary, no path and no version. The host is
/// taken to answer truly whether a path exists, and the world to hold no
/// executable without the installation root that it lies in.
pub proof fn lemma_check_after_remove(
    f: FfmpegView,
    world: World,
    removal: Seq<EventView>,
    check: Seq<EventView>,
)
    requires
        f.executable_path() is Ok && f.dir() is Ok ==> (world.present.contains(
            f.executable_path()->Ok_0,
        ) ==> world.present.contains(f.dir()->Ok_0)),
        honest(Run { step: f.remove(), world }, removal),
        run_all(Run { step: f.remove(), world }, removal).step.action is Finish,
        honest(
            Run { step: f.check(), world: run_all(Run { step: f.remove(), world }, removal).world },
            check,
        ),
        run_all(
            Run { step: f.check(), world: run_all(Run { step: f.remove(), world }, removal).world },
            check,
        ).step.action is Finish,
    ensures
        run_all(
            Run { step: f.check(), world: run_all(Run { step: f.remove(), world }, removal).world },
            check,
        ).step.action == ActionView::Finish(OutcomeView::Check(check_absent())),
{
    let start = Run { step: f.remove(), world };
    if f.platform() is Ok && f.app_data_dir is Ok {
        let p = f.platform()->Ok_0;
        let base = f.app_data_dir->Ok_0;
        let dir = spec_dir(base, p);
        let executable = spec_file(base, p, p.spec_executable_name());
        lemma_executable_is_within_root(base, p);
        lemma_remove_inv_holds(dir, executable, start, removal);
        let after = run_all(start, removal);
        lemma_check_absent_inv_holds(
            executable,
            Run { step: f.check(), world: after.world },
            check,
        );
    } else {
        lemma_failed_stays_failed(start, removal);
    }
}

} // verus!
