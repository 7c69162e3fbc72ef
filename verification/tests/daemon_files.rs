use handfast::base::bus::Event;
use handfast::base::Error;
use handfast::daemon::backends::{
    child_of_uri, configured_save_dir, copy_destination, expand_tilde, materialize_source, save_target,
    materialize_uri, move_into_uri, resolve_save_dir, source_of, source_temp_name, staging_dir,
    Materialized, SaveTarget, SourceStep, ToolOutcome, ToolStep, DEFAULT_SAVE_DIR,
};
use handfast::daemon::payload::port_to_try;
use handfast::daemon::stream::{OutgoingStream, ReadOutcome, Receipt, ReceiveStep, SendStep};
use handfast::daemon::transfer::{
    candidate, free_slot, sanitize_file_name, Removal, Slot, TransferEngine, FALLBACK_NAME,
    MAX_FILE_NAME_LEN,
};
use handfast::protocol::transfer::{TransferMeta, CHUNK_SIZE, UNKNOWN_SIZE};
use std::collections::BTreeMap;

fn meta(id: &str, file_name: &str, file_size: u64) -> TransferMeta {
    TransferMeta {
        transfer_id: id.to_string(),
        device_id: "peer-device".to_string(),
        file_name: file_name.to_string(),
        file_size,
    }
}

/// An engine over a disk that is kept in memory.
struct Rig {
    engine: TransferEngine,
    files: BTreeMap<String, Vec<u8>>,
}

impl Rig {
    fn new() -> Self {
        Rig { engine: TransferEngine::new("/save".into()), files: BTreeMap::new() }
    }

    fn start_receive(&mut self, meta: TransferMeta) -> Result<(), Error> {
        let part = self.engine.staging_for(&meta.file_name);
        let fresh = !self.engine.is_active(&meta.transfer_id);
        self.engine.start_receive(meta, Ok(()))?;
        assert!(fresh);
        self.files.insert(part, Vec::new());
        Ok(())
    }

    fn write_chunk(&mut self, id: &str, data: &[u8]) -> Result<u64, Error> {
        self.engine.check_chunk(id, data.len())?;
        let part = self.engine.part_path(id).expect("active");
        self.files.get_mut(&part).expect("staged").extend_from_slice(data);
        self.engine.write_chunk(id, data.len(), Ok(()))
    }

    fn finish_receive(&mut self, id: &str) -> Result<String, Error> {
        let name = self.engine.check_finish(id)?;
        let part = self.engine.part_path(id).expect("active");
        let mut taken = Vec::new();
        let slot = loop {
            match free_slot(&taken) {
                Slot::Free(n) => break Some(n),
                Slot::Ask(n) => {
                    taken.push(self.files.contains_key(&self.engine.destination(&name, n)))
                }
                Slot::Exhausted => break None,
            }
        };
        let path = self.engine.finish_receive(id, slot, Ok(()))?;
        let data = self.files.remove(&part).expect("staged");
        self.files.insert(path.clone(), data);
        Ok(path)
    }

    fn abort(&mut self, id: &str) -> Result<(), Error> {
        if let Some(part) = self.engine.part_path(id) {
            self.files.remove(&part);
        }
        self.engine.abort(id, Removal::Removed)
    }
}

#[test]
fn sanitizer_strips_traversal_and_separators() {
    assert_eq!(sanitize_file_name("report.pdf"), "report.pdf");
    assert_eq!(sanitize_file_name("../../etc/passwd"), "passwd");
    assert_eq!(sanitize_file_name("..\\..\\win\\evil.txt"), "evil.txt");
    assert_eq!(sanitize_file_name("/absolute/path.bin"), "path.bin");
    assert_eq!(sanitize_file_name("a/../b.txt"), "b.txt");
    assert_eq!(sanitize_file_name("."), FALLBACK_NAME);
    assert_eq!(sanitize_file_name(".."), FALLBACK_NAME);
    assert_eq!(sanitize_file_name(""), FALLBACK_NAME);
    assert_eq!(sanitize_file_name("...."), FALLBACK_NAME);
    // Windows-hostile characters are replaced, never dropped silently.
    assert_eq!(sanitize_file_name("a:b*c?.txt"), "a_b_c_.txt");
    let sanitized = sanitize_file_name(&("../".repeat(64) + &"x".repeat(MAX_FILE_NAME_LEN * 2)));
    assert!(!sanitized.contains('/'));
    assert!(sanitized.chars().count() <= MAX_FILE_NAME_LEN);
}

#[test]
fn full_lifecycle_writes_then_finalizes() {
    let mut rig = Rig::new();
    let payload = vec![7u8; CHUNK_SIZE + 11];

    rig.start_receive(meta("t1", "photo.jpg", payload.len() as u64)).unwrap();
    assert!(rig.engine.is_active("t1"));
    assert_eq!(rig.engine.active_count(), 1);
    assert!(rig.files.contains_key("/save/photo.jpg.handfast-part"));

    let done = rig.write_chunk("t1", &payload[..CHUNK_SIZE]).unwrap();
    assert_eq!(done, CHUNK_SIZE as u64);
    let done = rig.write_chunk("t1", &payload[CHUNK_SIZE..]).unwrap();
    assert_eq!(done, payload.len() as u64);

    let final_path = rig.finish_receive("t1").unwrap();
    assert_eq!(final_path, "/save/photo.jpg");
    assert!(!rig.engine.is_active("t1"));
    assert_eq!(rig.engine.active_count(), 0);
    assert!(!rig.files.contains_key("/save/photo.jpg.handfast-part"));
    assert_eq!(rig.files[&final_path], payload);
}

#[test]
fn hostile_names_cannot_escape_save_dir() {
    let mut rig = Rig::new();
    let evils = [
        "../../escaped.txt",
        "..\\..\\win_escaped.txt",
        "/absolute/path.txt",
        "sub/dir/nested.bin",
        "....",
    ];
    for (i, evil) in evils.iter().enumerate() {
        let id = format!("e{i}");
        rig.start_receive(meta(&id, evil, 2)).unwrap();
        rig.write_chunk(&id, b"ok").unwrap();
        let landed = rig.finish_receive(&id).unwrap();
        let name = landed.strip_prefix("/save/").expect("inside the directory");
        assert!(!name.contains('/'), "name {evil:?} escaped");
    }
    assert!(rig.files.contains_key("/save/escaped.txt"));
    assert!(rig.files.contains_key("/save/win_escaped.txt"));
    assert!(rig.files.contains_key("/save/path.txt"));
    assert!(rig.files.contains_key("/save/nested.bin"));
    assert!(rig.files.contains_key("/save/received-file")); // "...." collapsed
    assert_eq!(rig.files.len(), 5);
}

#[test]
fn abort_removes_partial_state_and_rejects_followups() {
    let mut rig = Rig::new();
    rig.start_receive(meta("a1", "movie.mkv", 100)).unwrap();
    rig.write_chunk("a1", &[0u8; 40]).unwrap();
    let part = "/save/movie.mkv.handfast-part";
    assert!(rig.files.contains_key(part));

    rig.abort("a1").unwrap();
    assert!(!rig.files.contains_key(part));
    assert!(!rig.engine.is_active("a1"));
    assert_eq!(rig.engine.active_count(), 0);

    // A dead transfer accepts no further traffic.
    assert!(rig.abort("a1").is_err());
    assert!(rig.write_chunk("a1", &[0u8]).is_err());
    assert!(rig.finish_receive("a1").is_err());
}

#[test]
fn interleaved_transfers_stay_isolated() {
    let mut rig = Rig::new();
    let red = vec![1u8; 3 * CHUNK_SIZE];
    let blue = vec![2u8; CHUNK_SIZE];
    rig.start_receive(meta("red", "red.bin", red.len() as u64)).unwrap();
    rig.start_receive(meta("blue", "blue.bin", blue.len() as u64)).unwrap();
    assert_eq!(rig.engine.active_count(), 2);

    let red_done_1 = rig.write_chunk("red", &red[..CHUNK_SIZE]).unwrap();
    let blue_done = rig.write_chunk("blue", &blue).unwrap();
    assert_eq!(red_done_1, CHUNK_SIZE as u64);
    assert_eq!(blue_done, CHUNK_SIZE as u64);

    let blue_path = rig.finish_receive("blue").unwrap();
    assert!(!rig.engine.is_active("blue"));
    // Finishing blue left red untouched and still mid-flight.
    assert!(rig.engine.is_active("red"));
    assert!(rig.files.contains_key("/save/red.bin.handfast-part"));

    rig.write_chunk("red", &red[CHUNK_SIZE..2 * CHUNK_SIZE]).unwrap();
    rig.write_chunk("red", &red[2 * CHUNK_SIZE..]).unwrap();
    let red_path = rig.finish_receive("red").unwrap();

    assert_eq!(rig.files[&blue_path], blue);
    assert_eq!(rig.files[&red_path], red);
    assert_eq!(rig.engine.active_count(), 0);
}

#[test]
fn protocol_violations_are_rejected() {
    let mut rig = Rig::new();

    // Duplicate id.
    rig.start_receive(meta("dup", "same.txt", 0)).unwrap();
    assert!(rig.start_receive(meta("dup", "same.txt", 0)).is_err());

    // Oversize chunk (protocol frames at CHUNK_SIZE).
    rig.start_receive(meta("big", "big.bin", 4)).unwrap();
    assert!(rig.write_chunk("big", &[0u8; CHUNK_SIZE]).is_err());
    // Overflowing the declared size.
    assert!(rig.write_chunk("big", &[0u8; 5]).is_err());
    // Incomplete finish leaves the transfer alive for retry/abort.
    rig.write_chunk("big", &[0u8; 2]).unwrap();
    assert!(matches!(rig.finish_receive("big"), Err(Error::Other(_))));
    assert!(rig.engine.is_active("big"));

    // Unknown ids error everywhere without touching state.
    assert!(rig.write_chunk("ghost", b"").is_err());
    assert!(rig.finish_receive("ghost").is_err());
    assert!(rig.abort("ghost").is_err());
    assert_eq!(rig.engine.active_count(), 2);

    rig.abort("dup").unwrap();
    rig.abort("big").unwrap();
    assert_eq!(rig.engine.active_count(), 0);
}

#[test]
fn colliding_names_get_numbered_copies() {
    let mut rig = Rig::new();
    for i in 0..3 {
        let id = format!("c{i}");
        rig.start_receive(meta(&id, "notes.txt", 4)).unwrap();
        rig.write_chunk(&id, b"data").unwrap();
        rig.finish_receive(&id).unwrap();
    }
    assert!(rig.files.contains_key("/save/notes.txt"));
    assert!(rig.files.contains_key("/save/notes (1).txt"));
    assert!(rig.files.contains_key("/save/notes (2).txt"));
    assert_eq!(rig.files["/save/notes (2).txt"], b"data");
}

#[test]
fn unknown_sizes_skip_the_size_check() {
    let mut rig = Rig::new();
    rig.start_receive(meta("s", "stream.bin", UNKNOWN_SIZE)).unwrap();
    rig.write_chunk("s", b"abc").unwrap();
    assert_eq!(rig.finish_receive("s").unwrap(), "/save/stream.bin");
}

#[test]
fn failing_files_leave_the_engine_as_it_was() {
    let mut engine = TransferEngine::new("/save".into());
    let refused = engine.start_receive(meta("t", "a", 1), Err("disk full".into()));
    assert!(matches!(refused, Err(Error::Io(ref m)) if m == "disk full"));
    assert_eq!(engine.active_count(), 0);
    engine.start_receive(meta("t", "a", 1), Ok(())).unwrap();
    assert!(matches!(engine.write_chunk("t", 1, Err("x".into())), Err(Error::Io(_))));
    assert_eq!(engine.write_chunk("t", 1, Ok(())).unwrap(), 1);
    assert!(matches!(engine.finish_receive("t", None, Ok(())), Err(Error::Other(_))));
    assert!(matches!(engine.finish_receive("t", Some(0), Err("x".into())), Err(Error::Io(_))));
    assert!(engine.is_active("t"));
    assert!(matches!(engine.abort("t", Removal::Failed("y".into())), Err(Error::Io(_))));
    assert!(!engine.is_active("t"));
}

#[test]
fn numbered_names_keep_their_extension() {
    assert_eq!(candidate("notes.txt", 0), "notes.txt");
    assert_eq!(candidate("notes.txt", 3), "notes (3).txt");
    assert_eq!(candidate("notes", 1), "notes (1)");
}

#[test]
fn save_dir_resolution() {
    let home = Some("/home/u");
    assert_eq!(
        resolve_save_dir("~/Downloads", home),
        SaveTarget::Local(expand_tilde("~/Downloads", home))
    );
    assert_eq!(
        resolve_save_dir("file:///home/u/x", home),
        SaveTarget::Local("/home/u/x".into())
    );
    assert_eq!(
        resolve_save_dir("gvfs:///mount/drive", home),
        SaveTarget::Uri("gvfs:///mount/drive".into())
    );
    assert_eq!(
        resolve_save_dir("smb://server/share", home),
        SaveTarget::Uri("smb://server/share".into())
    );
}

#[test]
fn tilde_expansion() {
    let home = "/home/u";
    assert_eq!(expand_tilde("~/x", Some(home)), "/home/u/x");
    assert_eq!(expand_tilde("/abs/path", Some(home)), "/abs/path");
}

/// Run the tools of a chain: `None` is not installed, `Some(ok)` tells
/// whether it works. Gives the tool that did the work.
fn run(
    installed: &[(&str, bool)],
    step: impl Fn(&Vec<ToolOutcome>) -> ToolStep,
) -> Result<&'static str, Error> {
    let mut outcomes = Vec::new();
    let mut last = "";
    loop {
        match step(&outcomes) {
            ToolStep::Done => return Ok(last),
            ToolStep::GaveUp(err) => return Err(err),
            ToolStep::Try(tool) => {
                last = tool;
                outcomes.push(match installed.iter().find(|(name, _)| *name == tool) {
                    None => ToolOutcome::Absent,
                    Some((_, true)) => ToolOutcome::Worked,
                    Some((_, false)) => ToolOutcome::Failed("exit status: 1".into()),
                });
            }
        }
    }
}

fn read(installed: &[(&str, bool)], uri: &str) -> Result<&'static str, Error> {
    run(installed, |outcomes| materialize_uri(uri, outcomes))
}

fn copy(installed: &[(&str, bool)], uri: &str) -> Result<&'static str, Error> {
    run(installed, |outcomes| move_into_uri(uri, outcomes))
}

#[test]
fn materialize_uri_prefers_gio() {
    let tools = [("gio", true), ("gvfs-cat", true), ("kioclient5", true)];
    assert_eq!(read(&tools, "smb://srv/share/f.bin").unwrap(), "gio");
    let ready = materialize_source(
        "smb://srv/share/f.bin",
        None,
        false,
        "/tmp/t",
        &vec![ToolOutcome::Worked],
    );
    assert_eq!(
        ready,
        SourceStep::Ready(Materialized { local: "/tmp/t".into(), cleanup: Some("/tmp/t".into()) })
    );
}

#[test]
fn materialize_uri_falls_through_when_gio_fails() {
    let tools = [("gio", false), ("kioclient5", true)];
    assert_eq!(read(&tools, "kdeconnect://dev/file").unwrap(), "kioclient5");
}

#[test]
fn materialize_uri_uses_gvfs_cat_when_gio_absent() {
    let tools = [("gvfs-cat", true)];
    assert_eq!(read(&tools, "mtp://device/photo.jpg").unwrap(), "gvfs-cat");
}

#[test]
fn materialize_uri_no_backend_errors() {
    let msg = read(&[], "smb://srv/share/f.bin").unwrap_err().message();
    assert!(msg.contains("no usable backend"), "{msg}");
}

#[test]
fn materialize_uri_reports_last_tool_failure() {
    let tools = [("gio", false), ("gvfs-cat", false), ("kioclient5", false)];
    let msg = read(&tools, "smb://srv/share/f.bin").unwrap_err().message();
    assert!(msg.contains("kioclient5 cat failed"), "{msg}");
}

#[test]
fn move_into_uri_copies_via_gio_and_removes_staging() {
    let tools = [("gio", true), ("kioclient5", true)];
    assert_eq!(copy(&tools, "smb://dest").unwrap(), "gio");
    assert_eq!(
        copy_destination("/staging/stage.bin", "smb://dest/").unwrap(),
        "smb://dest/stage.bin"
    );
}

#[test]
fn move_into_uri_falls_back_to_kioclient5_when_gio_copy_fails() {
    let tools = [("gio", false), ("kioclient5", true)];
    assert_eq!(copy(&tools, "smb://dest").unwrap(), "kioclient5");
}

#[test]
fn move_into_uri_no_backend_errors() {
    let msg = copy(&[], "smb://dest").unwrap_err().message();
    assert!(msg.contains("gio/kioclient5 unavailable"), "{msg}");
}

#[test]
fn materialize_source_plain_paths_need_no_backend() {
    let none = Vec::new();
    let ready = SourceStep::Ready(Materialized { local: "/base/f.txt".into(), cleanup: None });
    assert_eq!(materialize_source("/base/f.txt", None, true, "/tmp/t", &none), ready);
    assert_eq!(materialize_source("file:///base/f.txt", None, true, "/tmp/t", &none), ready);
    match materialize_source("/no/such/file.bin", None, false, "/tmp/t", &none) {
        SourceStep::Failed(err) => assert!(err.message().contains("file not found")),
        other => panic!("expected a failure, got {other:?}"),
    }
}

#[test]
fn destinations_are_staged_where_needed() {
    assert_eq!(DEFAULT_SAVE_DIR, "downloads");
    assert_eq!(configured_save_dir(None, "/d/handfast"), "/d/handfast/downloads");
    assert_eq!(configured_save_dir(Some(" \t".into()), "/d"), "/d/downloads");
    assert_eq!(configured_save_dir(Some("/x".into()), "/d"), "/x");
    let at = |stored: Option<&str>| save_target(stored.map(String::from), Some("/home/u"), "/d");
    assert_eq!(at(None), SaveTarget::Local("/d/downloads".into()));
    assert_eq!(at(Some("~/in")), SaveTarget::Local("/home/u/in".into()));
    assert_eq!(at(Some("smb://x")), SaveTarget::Uri("smb://x".into()));
    let odd = save_target(None, Some("/home/u"), "~/a b ");
    assert_eq!(odd, SaveTarget::Local("~/a b /downloads".into()));
    assert_eq!(expand_tilde("~", Some("/home/u")), "/home/u");
    assert_eq!(expand_tilde(" ~ ", Some("/home/u")), "/home/u");
    assert_eq!(expand_tilde("~", None), "~");
    assert_eq!(expand_tilde("~other/x", Some("/home/u")), "~other/x");
    assert_eq!(expand_tilde("\u{2003}/a\u{a0}\u{3000}", None), "/a");
    assert_eq!(expand_tilde("\u{200b}/a", None), "\u{200b}/a");
    assert_eq!(staging_dir(&SaveTarget::Local("/x".into()), "/tmp"), "/x");
    assert_eq!(
        staging_dir(&SaveTarget::Uri("smb://x".into()), "/tmp"),
        "/tmp/handfast-received"
    );
    assert_eq!(child_of_uri("smb://x//", "f"), "smb://x/f");
    assert!(copy_destination("/", "smb://x").is_err());
    assert_eq!(source_of(" smb://x/f ", None), SaveTarget::Uri("smb://x/f".into()));
    assert_eq!(source_temp_name(7, 2, 255), "handfast-src-7-2-ff");
}

#[test]
fn payload_ports_are_tried_in_order() {
    assert_eq!(port_to_try(0), Some(1739));
    assert_eq!(port_to_try(25), Some(1764));
    assert_eq!(port_to_try(26), Some(0));
    assert_eq!(port_to_try(27), None);
}

fn receipt(size: u64, has_payload: bool, target: SaveTarget) -> Receipt {
    Receipt::new("t1".into(), "phone".into(), "a.bin".into(), size, has_payload, target)
}

#[test]
fn receipts_take_the_announced_bytes() {
    let size: u64 = 150_000;
    let mut file = receipt(size, true, SaveTarget::Local("/save".into()));
    let mut step = file.started(Ok(()), false);
    let mut total: u64 = 0;
    let mut reads: Vec<usize> = Vec::new();
    loop {
        step = match step {
            ReceiveStep::ReadExactly(n) => {
                reads.push(n);
                file.read(ReadOutcome::Got(n))
            }
            ReceiveStep::Append(n) => {
                total += n as u64;
                let (event, next) = file.appended(Ok(total), false);
                assert_eq!(
                    event,
                    Some(Event::TransferProgress {
                        id: "t1".into(),
                        bytes_done: total,
                        bytes_total: size,
                    })
                );
                next
            }
            ReceiveStep::Finish => break,
            other => panic!("unexpected step {other:?}"),
        }
    }
    assert_eq!(reads, vec![65536, 65536, 18928]);
    assert_eq!(total, size);
    match file.finished(Ok("/save/a.bin".into())) {
        ReceiveStep::Received(event) => assert_eq!(
            event,
            Event::ShareReceived { path: "/save/a.bin".into(), device_id: "phone".into() }
        ),
        other => panic!("unexpected step {other:?}"),
    }
}

#[test]
fn receipts_without_a_size_end_with_the_stream() {
    let mut file = receipt(u64::MAX, true, SaveTarget::Uri("smb://nas/in/".into()));
    assert!(matches!(file.started(Ok(()), false), ReceiveStep::ReadSome(65536)));
    assert!(matches!(file.read(ReadOutcome::Got(10)), ReceiveStep::Append(10)));
    let (_, next) = file.appended(Ok(10), false);
    assert!(matches!(next, ReceiveStep::ReadSome(65536)));
    assert!(matches!(file.read(ReadOutcome::Got(0)), ReceiveStep::Finish));
    match file.finished(Ok("/tmp/x/a (1).bin".into())) {
        ReceiveStep::Deliver { local, uri } => {
            assert_eq!(local, "/tmp/x/a (1).bin");
            assert_eq!(uri, "smb://nas/in/");
        }
        other => panic!("unexpected step {other:?}"),
    }
    match file.delivered("/tmp/x/a (1).bin".into(), Ok(())) {
        ReceiveStep::Received(event) => assert_eq!(
            event,
            Event::ShareReceived { path: "smb://nas/in/a.bin".into(), device_id: "phone".into() }
        ),
        other => panic!("unexpected step {other:?}"),
    }
    match file.delivered("/tmp/x/a.bin".into(), Err(Error::Other("no space".into()))) {
        ReceiveStep::Discard { local, error } => {
            assert_eq!(local, "/tmp/x/a.bin");
            assert_eq!(error.message(), "no space");
        }
        other => panic!("unexpected step {other:?}"),
    }
}

#[test]
fn receipts_of_empty_files_need_no_read() {
    let file = receipt(0, false, SaveTarget::Local("/save".into()));
    assert!(matches!(file.started(Ok(()), true), ReceiveStep::Finish));
}

#[test]
fn receipts_stop_on_failures() {
    let mut file = receipt(100, true, SaveTarget::Local("/save".into()));
    assert!(matches!(file.started(Ok(()), true), ReceiveStep::Abort));
    let failed = |step: ReceiveStep, text: &str| match step {
        ReceiveStep::Failed(err) => assert_eq!(err.message(), text),
        other => panic!("unexpected step {other:?}"),
    };
    failed(file.started(Err(Error::Other("full".into())), false), "full");
    failed(file.read(ReadOutcome::TimedOut), "payload read timed out");
    failed(file.read(ReadOutcome::Failed(Error::Other("reset".into()))), "reset");
    let (event, step) = file.appended(Err(Error::Other("disk".into())), false);
    assert!(event.is_none());
    failed(step, "disk");
    let (_, step) = file.appended(Ok(40), true);
    assert!(matches!(step, ReceiveStep::Abort));
    let (_, step) = file.appended(Ok(100), true);
    assert!(matches!(step, ReceiveStep::Finish));
    failed(file.finished(Err(Error::Other("rename".into()))), "rename");
}

#[test]
fn outgoing_streams_report_progress() {
    let mut stream = OutgoingStream::new("t".into(), 5000);
    assert!(matches!(stream.started(true, false), SendStep::Read(4096)));
    assert!(matches!(stream.read(Ok(4000)), SendStep::Write(4000)));
    let (event, step) = stream.written(4000, Ok(()), false);
    assert_eq!(
        event,
        Some(Event::TransferProgress { id: "t".into(), bytes_done: 4000, bytes_total: 5000 })
    );
    assert!(matches!(step, SendStep::Read(1000)));
    assert_eq!(stream.position(), 4000);
    // A file that grew is cut, one that shrank is not sent.
    assert!(matches!(stream.read(Ok(1001)), SendStep::Write(1000)));
    match stream.read(Ok(0)) {
        SendStep::Failed(err) => assert_eq!(err.message(), "file ended before its announced size"),
        other => panic!("unexpected step {other:?}"),
    }
    let (_, step) = stream.written(1000, Ok(()), true);
    assert!(matches!(step, SendStep::Sent));
    assert!(matches!(stream.read(Ok(7)), SendStep::Sent));
}

#[test]
fn outgoing_streams_stop_on_failures() {
    let mut stream = OutgoingStream::new("t".into(), 100);
    let failed = |step: SendStep, text: &str| match step {
        SendStep::Failed(err) => assert_eq!(err.message(), text),
        other => panic!("unexpected step {other:?}"),
    };
    failed(stream.started(true, true), "transfer cancelled");
    failed(stream.started(false, false), "peer certificate is not the pinned one");
    failed(stream.started(false, true), "peer certificate is not the pinned one");
    failed(stream.read(Err(Error::Other("gone".into()))), "gone");
    let (event, step) = stream.written(40, Err(Error::Other("pipe".into())), false);
    assert!(event.is_none());
    failed(step, "pipe");
    assert_eq!(stream.position(), 0);
    let (_, step) = stream.written(40, Ok(()), true);
    failed(step, "transfer cancelled");
}
