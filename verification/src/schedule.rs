//! How many images are converted at once and how many threads the image library may
//! use, for each performance mode.

use vstd::prelude::*;
use crate::text::str_eq;

verus! {

/// The concurrency of one batch.
#[derive(Clone, Copy, PartialEq, Eq, Debug)]
pub struct Schedule {
    /// Images converted at the same time.
    pub max_tasks: usize,
    /// Worker threads the image library is told to use.
    pub vips_threads: i32,
}

/// The schedule for a performance mode, a requested concurrency (0: automatic) and the
/// number of CPUs: `background` runs at least two images and gives the image library
/// one thread; `balanced` uses half the CPUs (at least two) unless a concurrency is
/// given; any other mode uses every CPU unless a concurrency is given.
pub open spec fn spec_schedule(perf_mode: Seq<char>, concurrency: u32, cpus: usize) -> Schedule {
    if perf_mode == "background"@ {
        Schedule {
            max_tasks: if concurrency >= 2 {
                concurrency as usize
            } else {
                2
            },
            vips_threads: 1,
        }
    } else if perf_mode == "balanced"@ {
        let half: usize = if cpus / 2 >= 2 {
            (cpus / 2) as usize
        } else {
            2
        };
        Schedule {
            max_tasks: if concurrency > 0 {
                concurrency as usize
            } else {
                half
            },
            vips_threads: half as i32,
        }
    } else {
        Schedule {
            max_tasks: if concurrency > 0 {
                concurrency as usize
            } else {
                cpus
            },
            vips_threads: cpus as i32,
        }
    }
}

/// `num_cpus::get`: the number of logical CPUs the process may use. Its documentation
/// and source promise at least one; the count itself depends on the machine and is
/// left free.
#[verifier::external_body]
fn available_cpus() -> (n: usize)
    ensures
        n >= 1,
{
    num_cpus::get()
}

/// The schedule for a performance mode, a requested concurrency and `cpus` CPUs.
pub fn schedule(perf_mode: &str, concurrency: u32, cpus: usize) -> (s: Schedule)
    ensures
        s == spec_schedule(perf_mode@, concurrency, cpus),
{
    if str_eq(perf_mode, "background") {
        Schedule {
            max_tasks: if concurrency >= 2 {
                concurrency as usize
            } else {
                2
            },
            vips_threads: 1,
        }
    } else if str_eq(perf_mode, "balanced") {
        let half: usize = if cpus / 2 >= 2 {
            cpus / 2
        } else {
            2
        };
        Schedule {
            max_tasks: if concurrency > 0 {
                concurrency as usize
            } else {
                half
            },
            vips_threads: half as i32,
        }
    } else {
        Schedule {
            max_tasks: if concurrency > 0 {
                concurrency as usize
            } else {
                cpus
            },
            vips_threads: cpus as i32,
        }
    }
}

/// The schedule for a performance mode and requested concurrency on this machine:
/// the schedule for some CPU count of at least one, the one the machine reports.
pub fn schedule_for_machine(perf_mode: &str, concurrency: u32) -> (s: Schedule)
    ensures
        exists|cpus: usize| cpus >= 1 && s == spec_schedule(perf_mode@, concurrency, cpus),
        s.max_tasks >= 1,
{
    let cpus = available_cpus();
    let s = schedule(perf_mode, concurrency, cpus);
    proof {
        lemma_schedule_has_a_slot(perf_mode@, concurrency, cpus);
    }
    s
}

/// With at least one CPU, every schedule converts at least one image at a time, and
/// `background` at least two.
pub proof fn lemma_schedule_has_a_slot(perf_mode: Seq<char>, concurrency: u32, cpus: usize)
    requires
        cpus >= 1,
    ensures
        spec_schedule(perf_mode, concurrency, cpus).max_tasks >= 1,
        perf_mode == "background"@ ==> spec_schedule(perf_mode, concurrency, cpus).max_tasks >= 2,
{
}

/// A requested concurrency is honoured in every mode, except that `background` never
/// runs fewer than two images at a time.
pub proof fn lemma_concurrency_honoured(perf_mode: Seq<char>, concurrency: u32, cpus: usize)
    requires
        concurrency > 0,
    ensures
        perf_mode != "background"@ ==> spec_schedule(perf_mode, concurrency, cpus).max_tasks
            == concurrency,
        perf_mode == "background"@ && concurrency >= 2 ==> spec_schedule(
            perf_mode,
            concurrency,
            cpus,
        ).max_tasks == concurrency,
{
}

/// The schedule of each performance mode, for every CPU count:
/// - `balanced` runs half the CPUs' worth of images (but at least two) when no
///   concurrency is given, and gives the image library that same number of threads;
/// - `background` gives the image library one thread and runs the requested number of
///   images, but at least two;
/// - any other mode gives the image library one thread per CPU and runs one image per
///   CPU when no concurrency is given.
pub proof fn lemma_mode_schedules(perf_mode: Seq<char>, concurrency: u32, cpus: usize)
    ensures
        perf_mode == "balanced"@ ==> {
            let half: int = if cpus >= 4 {
                cpus as int / 2
            } else {
                2
            };
            &&& half * 2 <= cpus || half == 2
            &&& half * 2 + 2 > cpus
            &&& spec_schedule(perf_mode, concurrency, cpus).vips_threads == half as i32
            &&& concurrency == 0 ==> spec_schedule(perf_mode, concurrency, cpus).max_tasks == half
            &&& concurrency > 0 ==> spec_schedule(perf_mode, concurrency, cpus).max_tasks
                == concurrency
        },
        perf_mode == "background"@ ==> {
            &&& spec_schedule(perf_mode, concurrency, cpus).vips_threads == 1
            &&& spec_schedule(perf_mode, concurrency, cpus).max_tasks == if concurrency >= 2 {
                concurrency as int
            } else {
                2
            }
        },
        perf_mode != "balanced"@ && perf_mode != "background"@ ==> {
            &&& spec_schedule(perf_mode, concurrency, cpus).vips_threads == cpus as i32
            &&& spec_schedule(perf_mode, concurrency, cpus).max_tasks == if concurrency > 0 {
                concurrency as int
            } else {
                cpus as int
            }
        },
{
    reveal_strlit("balanced");
    reveal_strlit("background");
    assert("balanced"@[2] != "background"@[2]);
}

} // verus!
