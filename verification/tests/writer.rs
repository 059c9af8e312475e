use side_eye_host::writer::{writer_step, WriterAction, WriterEvent, WriterExit};

#[test]
fn a_frame_is_written_behind_a_line_feed() {
    assert!(matches!(writer_step(WriterEvent::Started), WriterAction::Receive));
    assert!(matches!(
        writer_step(WriterEvent::Received("{\"a\":1}\n".to_string())),
        WriterAction::Write(line) if line == "\n{\"a\":1}\n"
    ));
    assert!(matches!(
        writer_step(WriterEvent::Received(String::new())),
        WriterAction::Write(line) if line == "\n"
    ));
    assert!(matches!(writer_step(WriterEvent::Written(true)), WriterAction::Flush));
    assert!(matches!(writer_step(WriterEvent::Flushed(true)), WriterAction::Receive));
}

#[test]
fn failures_end_the_writer() {
    assert!(matches!(
        writer_step(WriterEvent::Written(false)),
        WriterAction::Stop(WriterExit::WriteFailed)
    ));
    assert!(matches!(
        writer_step(WriterEvent::Flushed(false)),
        WriterAction::Stop(WriterExit::FlushFailed)
    ));
    assert!(matches!(
        writer_step(WriterEvent::Disconnected),
        WriterAction::Stop(WriterExit::QueueClosed)
    ));
}

#[test]
fn a_writer_drains_its_queue() {
    let (tx, rx) = std::sync::mpsc::channel::<String>();
    tx.send("one\n".to_string()).unwrap();
    tx.send("two\n".to_string()).unwrap();
    drop(tx);
    let mut written = String::new();
    let mut flushes = 0;
    let mut action = writer_step(WriterEvent::Started);
    let exit = loop {
        action = match action {
            WriterAction::Receive => match rx.recv() {
                Ok(frame) => writer_step(WriterEvent::Received(frame)),
                Err(_) => writer_step(WriterEvent::Disconnected),
            },
            WriterAction::Write(line) => {
                written.push_str(&line);
                writer_step(WriterEvent::Written(true))
            }
            WriterAction::Flush => {
                flushes += 1;
                writer_step(WriterEvent::Flushed(true))
            }
            WriterAction::Stop(exit) => break exit,
        };
    };
    assert_eq!(exit, WriterExit::QueueClosed);
    assert_eq!(written, "\none\n\ntwo\n");
    assert_eq!(flushes, 2);
}
