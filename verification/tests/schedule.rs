use lumina_convert::schedule::{schedule, schedule_for_machine, Schedule};

#[test]
fn background_mode() {
    assert_eq!(schedule("background", 0, 16), Schedule { max_tasks: 2, vips_threads: 1 });
    assert_eq!(schedule("background", 1, 16), Schedule { max_tasks: 2, vips_threads: 1 });
    assert_eq!(schedule("background", 6, 16), Schedule { max_tasks: 6, vips_threads: 1 });
}

#[test]
fn balanced_mode() {
    assert_eq!(schedule("balanced", 0, 8), Schedule { max_tasks: 4, vips_threads: 4 });
    assert_eq!(schedule("balanced", 0, 3), Schedule { max_tasks: 2, vips_threads: 2 });
    assert_eq!(schedule("balanced", 0, 1), Schedule { max_tasks: 2, vips_threads: 2 });
    assert_eq!(schedule("balanced", 5, 8), Schedule { max_tasks: 5, vips_threads: 4 });
}

#[test]
fn performance_mode() {
    assert_eq!(schedule("performance", 0, 12), Schedule { max_tasks: 12, vips_threads: 12 });
    assert_eq!(schedule("", 3, 12), Schedule { max_tasks: 3, vips_threads: 12 });
    assert_eq!(schedule("x", 0, 1), Schedule { max_tasks: 1, vips_threads: 1 });
}

#[test]
fn machine_schedule_uses_cpu_count() {
    let cpus = num_cpus::get();
    assert_eq!(schedule_for_machine("performance", 0), schedule("performance", 0, cpus));
    assert_eq!(schedule_for_machine("balanced", 0), schedule("balanced", 0, cpus));
    assert!(schedule_for_machine("x", 0).max_tasks >= 1);
}

#[test]
fn schedule_always_has_a_slot() {
    for mode in ["background", "balanced", "performance"] {
        for c in [0u32, 1, 2, 7] {
            for cpus in [1usize, 2, 3, 64] {
                assert!(schedule(mode, c, cpus).max_tasks >= 1);
            }
        }
    }
}

#[test]
fn requested_concurrency_is_honoured() {
    for cpus in [1usize, 4, 32] {
        assert_eq!(schedule("balanced", 3, cpus).max_tasks, 3);
        assert_eq!(schedule("performance", 3, cpus).max_tasks, 3);
        assert_eq!(schedule("background", 3, cpus).max_tasks, 3);
        assert_eq!(schedule("background", 1, cpus).max_tasks, 2);
    }
}
