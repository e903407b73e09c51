use game_engine::base::frame_rate::{
    build_fps_count_system, frame_duration_from_fps, FpsValue, FrameRateConfig, FrameRateKeeper,
    FrameRateStrategy, WaitAction, WaitState,
};
use game_engine::base::sized_queue::SizedQueue;
use game_engine::base::systems::entry::CmdBufFlush;
use game_engine::base::systems::order::SystemPriority::{First, Last, Numbered};
use game_engine::base::systems::order::{SystemOrder, SystemPriority};
use game_engine::base::systems::schedule::{ScheduleBuilder, ScheduleData, ScheduleEntry, SystemBundle};
use game_engine::base::time::{duration_to_nanoseconds, Timer};
use game_engine::transform::local::TransformKind;
use game_engine::transform::systems::bundle::{TransformBundle, TransformSystem};
use std::time::{Duration, Instant};

fn pass_time(duration: Duration) {
    let from = Instant::now();
    while from.elapsed() < duration {
        std::hint::spin_loop();
    }
}

#[test]
fn sized_queue_drops_the_oldest() {
    let mut queue = SizedQueue::new(3);
    assert_eq!(queue.size(), 3);
    assert!(queue.is_empty());
    assert_eq!(queue.oldest(), None);
    assert_eq!(queue.newest(), None);
    assert_eq!(queue.push(1), None);
    assert_eq!(queue.push(2), None);
    assert_eq!(queue.push(3), None);
    assert_eq!(queue.len(), 3);
    assert_eq!(queue.push(4), Some(1));
    assert_eq!(queue.push(5), Some(2));
    assert_eq!(queue.len(), 3);
    assert_eq!(queue.oldest(), Some(&3));
    assert_eq!(queue.newest(), Some(&5));
    assert_eq!(queue.get(1), Some(&4));
    assert_eq!(queue.get(3), None);
    assert!(!queue.is_empty());
}

#[test]
fn sized_queue_iterates_from_both_ends() {
    let mut queue = SizedQueue::from_size(4);
    for item in 10..16 {
        queue.push(item);
    }
    let mut iter = queue.iter();
    assert_eq!(iter.len(), 4);
    assert_eq!(iter.next(), Some(&12));
    assert_eq!(iter.next_back(), Some(&15));
    assert_eq!(iter.next(), Some(&13));
    assert_eq!(iter.len(), 1);
    assert_eq!(iter.next_back(), Some(&14));
    assert_eq!(iter.next(), None);
    assert_eq!(iter.next_back(), None);
}

#[test]
fn sized_queue_of_size_zero_never_drops() {
    let mut queue = SizedQueue::new(0);
    assert_eq!(queue.push(1), None);
    assert_eq!(queue.push(2), None);
    assert_eq!(queue.len(), 2);
    assert_eq!(queue.size(), 0);
}

#[test]
fn system_order_constructors() {
    assert_eq!(SystemOrder::numbered(1, 2), SystemOrder(Numbered(1), Numbered(2)));
    assert_eq!(SystemOrder::from_first_number(3), SystemOrder(First, Numbered(3)));
    assert_eq!(SystemOrder::from_last_number(4), SystemOrder(Last, Numbered(4)));
    assert_eq!(SystemOrder::from_number_first(5), SystemOrder(Numbered(5), First));
    assert_eq!(SystemOrder::from_number_last(6), SystemOrder(Numbered(6), Last));
    assert_eq!(SystemOrder::first(), SystemOrder(First, First));
    assert_eq!(SystemOrder::last(), SystemOrder(Last, Last));
}

#[test]
fn system_order_precedence() {
    let orders = [
        SystemOrder::first(),
        SystemOrder::from_first_number(0),
        SystemOrder::from_first_number(7),
        SystemOrder(SystemPriority::First, SystemPriority::Last),
        SystemOrder::from_number_first(0),
        SystemOrder::numbered(0, 0),
        SystemOrder::numbered(0, usize::MAX),
        SystemOrder::from_number_last(0),
        SystemOrder::numbered(1, 0),
        SystemOrder::numbered(usize::MAX, 3),
        SystemOrder::from_last_number(2),
        SystemOrder::last(),
    ];
    for (i, a) in orders.iter().enumerate() {
        for (j, b) in orders.iter().enumerate() {
            assert_eq!(a.precedes(*b), i < j, "{:?} before {:?}", a, b);
            // the derived order is the same one
            assert_eq!(a < b, i < j);
        }
    }
    assert!(SystemPriority::First.precedes(SystemPriority::Numbered(0)));
    assert!(SystemPriority::Numbered(usize::MAX).precedes(SystemPriority::Last));
    assert!(!SystemPriority::Last.precedes(SystemPriority::Last));
}

fn names(schedule: &[ScheduleEntry<char>]) -> String {
    schedule
        .iter()
        .map(|entry| match entry {
            ScheduleEntry::System(name) => *name,
            ScheduleEntry::Flush => '|',
        })
        .collect()
}

#[test]
fn schedule_is_laid_out_by_order() {
    let schedule = ScheduleBuilder::new()
        .with_system(SystemOrder::numbered(2, 0), 'd')
        .with_system(SystemOrder::numbered(1, 0), 'b')
        .with_flush(SystemOrder::numbered(1, 5))
        .with_system(SystemOrder::first(), 'a')
        .with_system(SystemOrder::numbered(1, 0), 'c')
        .with_system(SystemOrder::last(), 'f')
        .with_system(SystemOrder::numbered(2, 0), 'e')
        .build();
    assert_eq!(names(&schedule), "abc|def");
}

#[test]
fn schedule_data_groups_entries() {
    let mut data = ScheduleData::new();
    data.insert(SystemOrder::numbered(1, 0), ScheduleEntry::System('x'));
    data.insert(SystemOrder::numbered(0, 0), ScheduleEntry::System('y'));
    data.insert(SystemOrder::numbered(1, 0), ScheduleEntry::Flush);
    data.insert(SystemOrder::numbered(0, 0), ScheduleEntry::System('z'));
    assert_eq!(names(&data.into_schedule()), "yzx|");
    let empty: ScheduleData<char> = ScheduleData::new();
    assert_eq!(names(&empty.into_schedule()), "");
}

fn stage_names(schedule: &[ScheduleEntry<TransformSystem>]) -> Vec<&'static str> {
    schedule
        .iter()
        .map(|entry| match entry {
            ScheduleEntry::System(TransformSystem::HierarchySync(_)) => "sync",
            ScheduleEntry::System(TransformSystem::TransformUpdate(system)) => match system.kind {
                TransformKind::World => "world",
                TransformKind::Parent => "parent",
            },
            ScheduleEntry::System(TransformSystem::HierarchicalTransformUpdate(_)) => "compose",
            ScheduleEntry::Flush => "flush",
        })
        .collect()
}

#[test]
fn transform_bundle_orders_its_stages() {
    let mut builder = ScheduleBuilder::new();
    TransformBundle::new_flush(SystemOrder::numbered(1, 0)).build_systems(&mut builder);
    assert_eq!(
        stage_names(&builder.build()),
        ["sync", "world", "parent", "flush", "compose"]
    );

    let mut builder = ScheduleBuilder::new();
    TransformBundle::new(SystemOrder::numbered(1, 0)).build_systems(&mut builder);
    assert_eq!(stage_names(&builder.build()), ["sync", "world", "parent", "compose"]);

    // a flush that the user adds between the two orders does the same
    let mut builder = ScheduleBuilder::new();
    TransformBundle::new(SystemOrder::numbered(3, 0))
        .with_end_order(SystemOrder::numbered(5, 0))
        .build_systems(&mut builder);
    builder.add_entry_desc(CmdBufFlush::new(SystemOrder::numbered(4, 0)));
    builder.add_flush(SystemOrder::numbered(2, 0));
    assert_eq!(
        stage_names(&builder.build()),
        ["flush", "sync", "world", "parent", "flush", "compose"]
    );
}

#[test]
fn transform_bundle_lays_out_its_own_schedule() {
    let first = SystemOrder::numbered(1, 0);
    let second = SystemOrder::numbered(2, 0);
    assert_eq!(
        stage_names(&TransformBundle::new_flush(first).into_schedule()),
        ["sync", "world", "parent", "flush", "compose"]
    );
    assert_eq!(
        stage_names(&TransformBundle::new(first).into_schedule()),
        ["sync", "world", "parent", "compose"]
    );
    assert_eq!(
        stage_names(&TransformBundle::new_flush(first).with_end_order(second).into_schedule()),
        ["sync", "world", "parent", "flush", "compose"]
    );
    // an end order before the start order puts the last stage first
    assert_eq!(
        stage_names(&TransformBundle::new_flush(second).with_end_order(first).into_schedule()),
        ["flush", "compose", "sync", "world", "parent"]
    );
}

#[test]
fn transform_bundle_builders() {
    let start = SystemOrder::numbered(1, 0);
    let other = SystemOrder::numbered(2, 0);
    let bundle = TransformBundle::new(start);
    assert_eq!(bundle.start_order, start);
    assert_eq!(bundle.end_order, start);
    assert!(!bundle.flush_before_end);
    let bundle = TransformBundle::new_flush(start);
    assert_eq!(bundle.end_order, start);
    assert!(bundle.flush_before_end);
    let bundle = bundle.without_flush().with_end_order(other);
    assert_eq!((bundle.start_order, bundle.end_order, bundle.flush_before_end), (start, other, false));
    let bundle = bundle.with_flush().with_start_order(other);
    assert_eq!((bundle.start_order, bundle.end_order, bundle.flush_before_end), (other, other, true));
}

#[test]
fn timer_states() {
    let mut timer = Timer::new();
    assert!(!timer.is_running());
    assert_eq!(timer.get(), Duration::default());
    timer.start();
    assert!(timer.is_running());
    pass_time(Duration::from_millis(40));
    let running = timer.get();
    assert!(running >= Duration::from_millis(40));
    // starting a running timer does not start it anew
    timer.start();
    assert!(timer.get() >= running);
    timer.stop();
    assert!(!timer.is_running());
    let measured = timer.get();
    assert!(measured >= running);
    assert_eq!(timer.get(), measured);
    // stopping an idle timer keeps what it measured
    timer.stop();
    assert_eq!(timer.get(), measured);
    // the next run goes on from the measured value
    timer.start();
    assert!(timer.get() >= measured);
    timer.restart();
    assert!(timer.is_running());
    assert!(timer.get() < measured);
    timer.reset();
    assert!(!timer.is_running());
    assert_eq!(timer.get(), Duration::default());
    assert!(!Timer::default().is_running());
}

#[test]
fn durations_in_nanoseconds() {
    assert_eq!(duration_to_nanoseconds(Duration::new(0, 0)), 0);
    assert_eq!(duration_to_nanoseconds(Duration::new(3, 17)), 3_000_000_017);
    // more than 64 bits hold: only the low 64 bits come out
    let long = Duration::new(u64::MAX, 999_999_999);
    assert_eq!(duration_to_nanoseconds(long), long.as_nanos() as u64);
    assert_eq!(long.as_nanos() as u64 as u128, long.as_nanos() % (1u128 << 64));
}

#[test]
fn frame_durations() {
    assert_eq!(frame_duration_from_fps(1), Duration::from_secs(1));
    assert_eq!(frame_duration_from_fps(60), Duration::from_secs(1) / 60);
    assert_eq!(frame_duration_from_fps(144), Duration::from_nanos(6_944_444));
    assert_eq!(frame_duration_from_fps(u32::MAX), Duration::from_secs(1) / u32::MAX);
    let config = FrameRateConfig::new();
    assert_eq!(config.fps, 144);
    assert!(matches!(config.strategy, FrameRateStrategy::Precise));
    assert!(matches!(FrameRateStrategy::default(), FrameRateStrategy::Precise));
    assert_eq!(FrameRateConfig::default().fps, 144);
}

fn keeper(strategy: FrameRateStrategy) -> FrameRateKeeper {
    // 100 frames per second: a frame lasts ten milliseconds
    FrameRateKeeper::from_config(FrameRateConfig { fps: 100, strategy })
}

fn ms(n: u64) -> Duration {
    Duration::from_millis(n)
}

#[test]
fn waiting_as_fast_as_possible() {
    let keeper = keeper(FrameRateStrategy::AsFastAsPossible);
    assert!(keeper.can_wait());
    let (state, action) = keeper.wait_step(WaitState::Start, ms(0));
    assert_eq!(state, WaitState::Done);
    assert!(matches!(action, WaitAction::Yield));
    let (state, action) = keeper.wait_step(state, ms(0));
    assert_eq!(state, WaitState::Done);
    assert!(matches!(action, WaitAction::Proceed));
}

#[test]
fn waiting_precisely() {
    let keeper = keeper(FrameRateStrategy::Precise);
    // one yield whatever the time
    let (state, action) = keeper.wait_step(WaitState::Start, ms(20));
    assert_eq!(state, WaitState::Spinning);
    assert!(matches!(action, WaitAction::Yield));
    let (state, action) = keeper.wait_step(WaitState::Spinning, ms(9));
    assert_eq!(state, WaitState::Spinning);
    assert!(matches!(action, WaitAction::Yield));
    let (state, action) = keeper.wait_step(WaitState::Spinning, ms(10));
    assert_eq!(state, WaitState::Done);
    assert!(matches!(action, WaitAction::Proceed));
}

#[test]
fn waiting_with_sleep() {
    let keeper = keeper(FrameRateStrategy::EqualOrSlower);
    let (state, action) = keeper.wait_step(WaitState::Start, ms(4));
    assert_eq!(state, WaitState::Sleeping);
    assert!(matches!(action, WaitAction::Sleep(d) if d == ms(6)));
    let (state, action) = keeper.wait_step(WaitState::Sleeping, ms(10));
    assert_eq!(state, WaitState::Spinning);
    assert!(matches!(action, WaitAction::Yield));
    let (state, _) = keeper.wait_step(state, ms(11));
    assert_eq!(state, WaitState::Done);

    let rough = self::keeper(FrameRateStrategy::Rough { until_left: ms(3) });
    assert!(rough.can_wait());
    let (state, action) = rough.wait_step(WaitState::Start, ms(4));
    assert_eq!(state, WaitState::Sleeping);
    assert!(matches!(action, WaitAction::Sleep(d) if d == ms(3)));
    let (state, action) = rough.wait_step(WaitState::Sleeping, ms(7));
    assert_eq!(state, WaitState::Spinning);
    assert!(matches!(action, WaitAction::Yield));
    let (state, action) = rough.wait_step(state, ms(8));
    assert_eq!(state, WaitState::Spinning);
    assert!(matches!(action, WaitAction::Yield));

    let too_rough = self::keeper(FrameRateStrategy::Rough { until_left: ms(11) });
    assert!(!too_rough.can_wait());
}

#[test]
fn frame_rate_keeper_settings() {
    let mut keeper = FrameRateKeeper::new();
    assert!(matches!(keeper.strategy, FrameRateStrategy::Precise));
    // a frame of 1/144 s is over after seven milliseconds, not after six
    assert_eq!(keeper.wait_step(WaitState::Spinning, ms(6)).0, WaitState::Spinning);
    assert_eq!(keeper.wait_step(WaitState::Spinning, ms(7)).0, WaitState::Done);
    keeper.set_fps(50);
    assert_eq!(keeper.wait_step(WaitState::Spinning, ms(19)).0, WaitState::Spinning);
    assert_eq!(keeper.wait_step(WaitState::Spinning, ms(20)).0, WaitState::Done);
    let before = keeper.started_at();
    pass_time(ms(2));
    keeper.reset();
    assert!(keeper.started_at() > before);
}

#[test]
fn frame_rate_keeper_starts_a_frame_at_a_given_moment() {
    let mut keeper = keeper(FrameRateStrategy::Rough { until_left: ms(3) });
    let first = keeper.started_at();
    pass_time(ms(2));
    let moment = Instant::now();
    assert!(moment > first);
    keeper.reset_to(moment);
    assert_eq!(keeper.started_at(), moment);
    // the strategy and the duration of a frame stay
    assert!(matches!(keeper.strategy, FrameRateStrategy::Rough { until_left } if until_left == ms(3)));
    assert_eq!(keeper.wait_step(WaitState::Spinning, ms(9)).0, WaitState::Spinning);
    assert_eq!(keeper.wait_step(WaitState::Spinning, ms(10)).0, WaitState::Done);
    // back to an earlier moment
    keeper.reset_to(first);
    assert_eq!(keeper.started_at(), first);
}

#[test]
fn fps_values() {
    let mut fps = FpsValue::new();
    assert_eq!(fps.count(), 0);
    assert_eq!(fps.last_nanoseconds(), None);
    assert_eq!(fps.total_nanoseconds(), 0);
    for frame in 1..=12u64 {
        fps.record(frame * 1_000);
    }
    // the last ten of twelve
    assert_eq!(fps.count(), 10);
    assert_eq!(fps.last_nanoseconds(), Some(12_000));
    assert_eq!(fps.total_nanoseconds(), (3..=12u64).map(|f| f as u128 * 1_000).sum::<u128>());

    let mut small = FpsValue::from_queue_size(2);
    let system = build_fps_count_system();
    system.run(&mut small, Duration::new(0, 5));
    system.run(&mut small, Duration::new(1, 0));
    system.run(&mut small, Duration::new(2, 1));
    assert_eq!(small.count(), 2);
    assert_eq!(small.last_nanoseconds(), Some(2_000_000_001));
    assert_eq!(small.total_nanoseconds(), 3_000_000_001);

    let mut large = FpsValue::from_queue_size(3);
    large.record(u64::MAX);
    large.record(u64::MAX);
    assert_eq!(large.total_nanoseconds(), 2 * (u64::MAX as u128));
    assert_eq!(FpsValue::default().count(), 0);
}
