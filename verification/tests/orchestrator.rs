use mfl_gramophone::config::{Config, PlaybackFile};
use mfl_gramophone::ctxt::{copy_ids, Command, Context, Error, Event, Notice};
use mfl_gramophone::message::{AudioThreadMessage, Level, Message};
use mfl_gramophone::osc::{OscContext, OscEvent, OscOutcome};
use mfl_gramophone::session::{find, has_sender, ActiveFile};

fn stereo() -> Config {
    Config::get(
        vec![
            ("bell".to_string(), PlaybackFile { uri: "f.wav".to_string(), looping: false }),
            ("horn".to_string(), PlaybackFile { uri: "g.wav".to_string(), looping: false }),
        ],
        "127.0.0.1:9000".to_string(),
        vec!["out_L".to_string(), "out_R".to_string()],
        5,
        44100,
    )
    .unwrap()
}

fn zero_db() -> Level {
    Level::Float(0.0f32.to_bits())
}

fn start(ctx: &mut Context, name: &str, senders: Vec<u128>) -> Vec<Command> {
    let asked = ctx.run(Event::Control(Message::PlayFile(name.to_string(), zero_db())));
    assert_eq!(asked.len(), 1);
    ctx.run(Event::Opened(name.to_string(), Some(senders)))
}

fn names(ctx: &Context) -> Vec<String> {
    ctx.active_files.iter().map(|e| e.0.clone()).collect()
}

#[test]
fn a_new_orchestrator_is_empty() {
    let ctx = Context::new(stereo());
    assert!(ctx.active_files.is_empty());
    assert_eq!(ctx.epoch, 0);
    assert_eq!(ctx.cfg, stereo());
}

#[test]
fn happy_path_play_stop() {
    let mut osc = OscContext::new();
    let msg = rosc::OscMessage {
        addr: "/file/bell/start".to_string(),
        args: Some(vec![rosc::OscType::Float(0.0)]),
    };
    let bytes = rosc::encoder::encode(&rosc::OscPacket::Message(msg)).unwrap();
    assert_eq!(osc.run(OscEvent::Datagram(bytes)), OscOutcome::Dispatched);
    assert_eq!(osc.out, vec![b"/ack\0\0\0\0,\0\0\0".to_vec()]);
    let intent = osc.tx.remove(0);

    let mut ctx = Context::new(stereo());
    let asked = ctx.run(Event::Control(intent));
    assert_eq!(
        asked,
        vec![Command::Open {
            name: "bell".to_string(),
            uri: "f.wav".to_string(),
            level: zero_db(),
            channels: 2,
        }]
    );
    assert!(ctx.active_files.is_empty());

    let cmds = ctx.run(Event::Opened("bell".to_string(), Some(vec![11, 12])));
    assert_eq!(
        cmds,
        vec![
            Command::Spawn { name: "bell".to_string(), epoch: 1 },
            Command::Start { senders: vec![11, 12] },
        ]
    );
    assert_eq!(
        ctx.active_files,
        vec![("bell".to_string(), ActiveFile { senders: vec![11, 12], buffered: false, epoch: 1 })]
    );

    let none = ctx.run(Event::Control(Message::BufferComplete("bell".to_string(), 1)));
    assert!(none.is_empty());
    assert!(ctx.active_files[0].1.buffered);

    let ended = ctx.run(Event::Control(Message::Engine(AudioThreadMessage::PlayerBufEmpty(11))));
    assert_eq!(ended, vec![Command::Retire { epoch: 1, senders: vec![11, 12] }]);
    assert!(ctx.active_files.is_empty());

    let late = ctx.run(Event::Control(Message::Engine(AudioThreadMessage::PlayerBufEmpty(12))));
    assert_eq!(late, vec![Command::Notice(Notice::Straggler(12))]);
    assert!(ctx.active_files.is_empty());
}

#[test]
fn fade_then_stop() {
    let mut ctx = Context::new(stereo());
    start(&mut ctx, "bell", vec![11, 12]);
    let target = Level::Float((-60.0f32).to_bits());
    let cmds = ctx.run(Event::Control(Message::FadeFile("bell".to_string(), target, 500)));
    assert_eq!(
        cmds,
        vec![Command::Fade { senders: vec![11, 12], target, duration_ms: 500 }]
    );
    assert_eq!(names(&ctx), vec!["bell".to_string()]);

    let cmds = ctx.run(Event::Control(Message::StopFile("bell".to_string())));
    assert_eq!(
        cmds,
        vec![
            Command::Halt { senders: vec![11, 12] },
            Command::Retire { epoch: 1, senders: vec![11, 12] },
        ]
    );
    assert!(ctx.active_files.is_empty());
}

#[test]
fn restart_races_stale_completion() {
    let mut ctx = Context::new(stereo());
    ctx.epoch = 6;
    let cmds = start(&mut ctx, "bell", vec![1, 2]);
    assert_eq!(cmds[0], Command::Spawn { name: "bell".to_string(), epoch: 7 });
    ctx.run(Event::Control(Message::BufferComplete("bell".to_string(), 7)));
    assert!(ctx.active_files[0].1.buffered);

    let cmds = start(&mut ctx, "bell", vec![3, 4]);
    assert_eq!(
        cmds,
        vec![
            Command::Spawn { name: "bell".to_string(), epoch: 8 },
            Command::Retire { epoch: 7, senders: vec![1, 2] },
            Command::Start { senders: vec![3, 4] },
        ]
    );
    assert_eq!(ctx.epoch, 8);
    assert_eq!(
        ctx.active_files,
        vec![("bell".to_string(), ActiveFile { senders: vec![3, 4], buffered: false, epoch: 8 })]
    );

    let none = ctx.run(Event::Control(Message::BufferComplete("bell".to_string(), 7)));
    assert!(none.is_empty());
    assert_eq!(
        ctx.active_files,
        vec![("bell".to_string(), ActiveFile { senders: vec![3, 4], buffered: false, epoch: 8 })]
    );
}

#[test]
fn completion_for_another_name_or_epoch_changes_nothing() {
    let mut ctx = Context::new(stereo());
    start(&mut ctx, "bell", vec![1, 2]);
    start(&mut ctx, "horn", vec![3, 4]);
    let before = ctx.active_files.clone();
    ctx.buffer_complete("bell", 2);
    assert_eq!(ctx.active_files, before);
    ctx.buffer_complete("horn", 1);
    assert_eq!(ctx.active_files, before);
    ctx.buffer_complete("gong", 1);
    assert_eq!(ctx.active_files, before);
    ctx.buffer_complete("horn", 2);
    assert!(!ctx.active_files[0].1.buffered);
    assert!(ctx.active_files[1].1.buffered);
    assert_eq!(names(&ctx), vec!["bell".to_string(), "horn".to_string()]);
}

#[test]
fn underrun_keeps_the_session() {
    let mut ctx = Context::new(stereo());
    start(&mut ctx, "bell", vec![11, 12]);
    let cmds = ctx.run(Event::Control(Message::Engine(AudioThreadMessage::PlayerBufEmpty(12))));
    assert_eq!(cmds, vec![Command::Notice(Notice::Underrun(1))]);
    assert_eq!(
        ctx.active_files,
        vec![("bell".to_string(), ActiveFile { senders: vec![11, 12], buffered: false, epoch: 1 })]
    );
}

#[test]
fn half_empty_buffer_wakes_the_owning_worker() {
    let mut ctx = Context::new(stereo());
    start(&mut ctx, "bell", vec![11, 12]);
    start(&mut ctx, "horn", vec![21, 22]);
    assert_eq!(
        ctx.engine_message(AudioThreadMessage::PlayerBufHalf(22)),
        vec![Command::Wake { epoch: 2 }]
    );
    assert_eq!(
        ctx.engine_message(AudioThreadMessage::PlayerBufHalf(11)),
        vec![Command::Wake { epoch: 1 }]
    );
    assert_eq!(ctx.engine_message(AudioThreadMessage::PlayerBufHalf(99)), vec![]);
    assert_eq!(names(&ctx), vec!["bell".to_string(), "horn".to_string()]);
}

#[test]
fn informational_engine_messages_change_nothing() {
    let mut ctx = Context::new(stereo());
    start(&mut ctx, "bell", vec![11, 12]);
    let before = ctx.active_files.clone();
    assert_eq!(
        ctx.engine_message(AudioThreadMessage::Xrun),
        vec![Command::Notice(Notice::Xrun)]
    );
    assert_eq!(
        ctx.engine_message(AudioThreadMessage::PlayerInvalidOutpatch(11)),
        vec![Command::Notice(Notice::InvalidOutpatch(11))]
    );
    assert_eq!(
        ctx.engine_message(AudioThreadMessage::PlayerRejected),
        vec![Command::Notice(Notice::PlayerRejected)]
    );
    assert_eq!(ctx.engine_message(AudioThreadMessage::PlayerAdded(11)), vec![]);
    assert_eq!(ctx.engine_message(AudioThreadMessage::PlayerRemoved), vec![]);
    assert_eq!(ctx.active_files, before);
    assert_eq!(ctx.epoch, 1);
}

#[test]
fn ping_is_only_logged() {
    let mut ctx = Context::new(stereo());
    assert_eq!(ctx.process_message(Message::Ping), Ok(vec![Command::Notice(Notice::Ping)]));
    assert!(ctx.active_files.is_empty());
}

#[test]
fn start_of_an_unconfigured_file_fails() {
    let mut ctx = Context::new(stereo());
    assert_eq!(
        ctx.process_message(Message::PlayFile("gong".to_string(), zero_db())),
        Err(Error::NoSuchFile)
    );
    assert_eq!(ctx.request_file("gong", zero_db()), Err(Error::NoSuchFile));
    assert_eq!(ctx.prepare_file("gong", Some(vec![1, 2])), Err(Error::NoSuchFile));
    assert_eq!(
        ctx.run(Event::Control(Message::PlayFile("gong".to_string(), zero_db()))),
        vec![Command::Notice(Notice::Failed(Error::NoSuchFile))]
    );
    assert!(ctx.active_files.is_empty());
    assert_eq!(ctx.epoch, 0);
}

#[test]
fn commands_for_an_inactive_file_fail() {
    let mut ctx = Context::new(stereo());
    start(&mut ctx, "horn", vec![1, 2]);
    let before = ctx.active_files.clone();
    assert_eq!(
        ctx.process_message(Message::StopFile("bell".to_string())),
        Err(Error::NoSuchActiveFile)
    );
    assert_eq!(
        ctx.process_message(Message::FadeFile("bell".to_string(), zero_db(), 10)),
        Err(Error::NoSuchActiveFile)
    );
    assert_eq!(
        ctx.process_message(Message::DebugFile("bell".to_string())),
        Err(Error::NoSuchActiveFile)
    );
    assert_eq!(ctx.start_stop_file("bell", true), Err(Error::NoSuchActiveFile));
    assert_eq!(ctx.start_stop_file("bell", false), Err(Error::NoSuchActiveFile));
    assert_eq!(ctx.configure_file_fade("bell", zero_db(), 1), Err(Error::NoSuchActiveFile));
    assert_eq!(ctx.debug_file("bell"), Err(Error::NoSuchActiveFile));
    assert_eq!(
        ctx.run(Event::Control(Message::StopFile("bell".to_string()))),
        vec![Command::Notice(Notice::Failed(Error::NoSuchActiveFile))]
    );
    assert_eq!(ctx.active_files, before);
}

#[test]
fn a_file_that_does_not_open_leaves_the_table_unchanged() {
    let mut ctx = Context::new(stereo());
    start(&mut ctx, "bell", vec![1, 2]);
    let before = ctx.active_files.clone();
    assert_eq!(ctx.prepare_file("bell", None), Err(Error::DecoderOpen));
    assert_eq!(ctx.file_opened("horn", None), Err(Error::DecoderOpen));
    assert_eq!(
        ctx.run(Event::Opened("bell".to_string(), None)),
        vec![Command::Notice(Notice::Failed(Error::DecoderOpen))]
    );
    assert_eq!(ctx.active_files, before);
    assert_eq!(ctx.epoch, 1);
}

#[test]
fn senders_must_match_the_channels() {
    let mut ctx = Context::new(stereo());
    assert_eq!(ctx.prepare_file("bell", Some(vec![1])), Err(Error::SenderCount));
    assert_eq!(ctx.prepare_file("bell", Some(vec![1, 2, 3])), Err(Error::SenderCount));
    assert_eq!(ctx.prepare_file("bell", Some(vec![])), Err(Error::SenderCount));
    assert!(ctx.active_files.is_empty());
    assert_eq!(ctx.epoch, 0);
    assert!(ctx.prepare_file("bell", Some(vec![1, 2])).is_ok());
    assert_eq!(ctx.active_files[0].1.senders.len(), ctx.cfg.channels.len());
}

#[test]
fn the_last_epoch_is_not_given_out_twice() {
    let mut ctx = Context::new(stereo());
    ctx.epoch = u32::MAX - 1;
    assert_eq!(
        ctx.prepare_file("bell", Some(vec![1, 2])),
        Ok(vec![Command::Spawn { name: "bell".to_string(), epoch: u32::MAX }])
    );
    assert_eq!(ctx.prepare_file("horn", Some(vec![3, 4])), Err(Error::EpochExhausted));
    assert_eq!(ctx.epoch, u32::MAX);
    assert_eq!(names(&ctx), vec!["bell".to_string()]);
}

#[test]
fn epochs_increase_in_the_order_of_creation() {
    let mut ctx = Context::new(stereo());
    start(&mut ctx, "bell", vec![1, 2]);
    start(&mut ctx, "horn", vec![3, 4]);
    ctx.run(Event::Control(Message::StopFile("bell".to_string())));
    start(&mut ctx, "bell", vec![5, 6]);
    start(&mut ctx, "horn", vec![7, 8]);
    let epochs: Vec<u32> = ctx.active_files.iter().map(|e| e.1.epoch).collect();
    assert_eq!(names(&ctx), vec!["bell".to_string(), "horn".to_string()]);
    assert_eq!(epochs, vec![3, 4]);
    assert_eq!(ctx.epoch, 4);
}

#[test]
fn starting_twice_leaves_one_session() {
    let mut ctx = Context::new(stereo());
    start(&mut ctx, "bell", vec![1, 2]);
    let cmds = start(&mut ctx, "bell", vec![3, 4]);
    assert_eq!(names(&ctx), vec!["bell".to_string()]);
    assert_eq!(ctx.active_files[0].1.epoch, 2);
    assert_eq!(ctx.active_files[0].1.senders, vec![3, 4]);
    assert!(cmds.contains(&Command::Retire { epoch: 1, senders: vec![1, 2] }));
}

#[test]
fn the_table_follows_the_last_start_or_stop() {
    let mut ctx = Context::new(stereo());
    let is_active = |ctx: &Context, name: &str| find(&ctx.active_files, name).is_some();
    assert!(!is_active(&ctx, "bell"));
    start(&mut ctx, "bell", vec![1, 2]);
    assert!(is_active(&ctx, "bell"));
    ctx.run(Event::Control(Message::FadeFile("bell".to_string(), zero_db(), 5)));
    ctx.run(Event::Control(Message::FadeFile("bell".to_string(), zero_db(), 7)));
    ctx.run(Event::Control(Message::DebugFile("bell".to_string())));
    ctx.run(Event::Control(Message::Ping));
    assert!(is_active(&ctx, "bell"));
    start(&mut ctx, "horn", vec![3, 4]);
    ctx.run(Event::Control(Message::StopFile("horn".to_string())));
    assert!(is_active(&ctx, "bell"));
    assert!(!is_active(&ctx, "horn"));
    ctx.run(Event::Control(Message::StopFile("bell".to_string())));
    assert!(!is_active(&ctx, "bell"));
    ctx.run(Event::Control(Message::StopFile("bell".to_string())));
    assert!(!is_active(&ctx, "bell"));
    start(&mut ctx, "bell", vec![5, 6]);
    assert!(is_active(&ctx, "bell"));
}

#[test]
fn debug_reports_what_the_table_knows() {
    let mut ctx = Context::new(stereo());
    start(&mut ctx, "bell", vec![11, 12]);
    assert_eq!(
        ctx.debug_file("bell"),
        Ok(vec![Command::Report { count: 2, buffered: false, first: Some(11) }])
    );
    ctx.buffer_complete("bell", 1);
    assert_eq!(
        ctx.process_message(Message::DebugFile("bell".to_string())),
        Ok(vec![Command::Report { count: 2, buffered: true, first: Some(11) }])
    );
    ctx.active_files[0].1.senders.clear();
    assert_eq!(
        ctx.debug_file("bell"),
        Ok(vec![Command::Report { count: 0, buffered: true, first: None }])
    );
}

#[test]
fn start_stop_file_starts_without_removing() {
    let mut ctx = Context::new(stereo());
    ctx.prepare_file("bell", Some(vec![1, 2])).unwrap();
    assert_eq!(ctx.start_stop_file("bell", true), Ok(vec![Command::Start { senders: vec![1, 2] }]));
    assert_eq!(names(&ctx), vec!["bell".to_string()]);
}

#[test]
fn lookup_finds_the_owner_of_a_sender() {
    let mut ctx = Context::new(stereo());
    start(&mut ctx, "bell", vec![11, 12]);
    start(&mut ctx, "horn", vec![21, 22]);
    assert_eq!(ctx.lookup_uu(11), Some("bell".to_string()));
    assert_eq!(ctx.lookup_uu(12), Some("bell".to_string()));
    assert_eq!(ctx.lookup_uu(22), Some("horn".to_string()));
    assert_eq!(ctx.lookup_uu(13), None);
    ctx.active_files[1].1.senders = vec![11, 22];
    assert_eq!(ctx.lookup_uu(11), Some("horn".to_string()));
}

#[test]
fn shutdown_retires_every_session() {
    let mut ctx = Context::new(stereo());
    start(&mut ctx, "bell", vec![11, 12]);
    start(&mut ctx, "horn", vec![21, 22]);
    let cmds = ctx.run(Event::Control(Message::Shutdown));
    assert_eq!(
        cmds,
        vec![
            Command::Retire { epoch: 1, senders: vec![11, 12] },
            Command::Retire { epoch: 2, senders: vec![21, 22] },
            Command::Exit,
        ]
    );
    assert!(ctx.active_files.is_empty());
    assert_eq!(ctx.shutdown(), vec![Command::Exit]);
}

#[test]
fn a_lost_control_queue_is_a_shutdown() {
    let mut ctx = Context::new(stereo());
    start(&mut ctx, "bell", vec![11, 12]);
    assert_eq!(
        ctx.run(Event::QueueClosed),
        vec![Command::Retire { epoch: 1, senders: vec![11, 12] }, Command::Exit]
    );
    assert!(ctx.active_files.is_empty());
}

#[test]
fn table_helpers() {
    let table = vec![
        ("a".to_string(), ActiveFile { senders: vec![1, 2], buffered: false, epoch: 1 }),
        ("b".to_string(), ActiveFile { senders: vec![3], buffered: true, epoch: 2 }),
    ];
    assert_eq!(find(&table, "a"), Some(0));
    assert_eq!(find(&table, "b"), Some(1));
    assert_eq!(find(&table, "c"), None);
    assert!(has_sender(&table[0].1.senders, 2));
    assert!(!has_sender(&table[0].1.senders, 3));
    assert_eq!(copy_ids(&table[0].1.senders), vec![1, 2]);
    assert_eq!(copy_ids(&vec![]), Vec::<u128>::new());
}
