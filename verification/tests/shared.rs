use appendix::log::Record;
use appendix::shared::SharedLog;

#[test]
fn shared_log_round_trip() {
    let shared = SharedLog::new();
    assert_eq!(shared.append(Record::new(b"hello".to_vec())), 0);
    assert_eq!(shared.append(Record::new(b"world".to_vec())), 1);
    let first = shared.read(0).unwrap();
    assert_eq!(*first.value(), b"hello".to_vec());
    assert_eq!(first.offset(), 0);
    assert_eq!(shared.read(2).err().unwrap().message, "Offset 2 not found");
}

#[test]
fn clones_reach_the_same_log() {
    let writer = SharedLog::new();
    let reader = writer.clone();
    assert!(reader.read(0).is_err());
    assert_eq!(writer.append(Record::new(b"seen".to_vec())), 0);
    assert_eq!(*reader.read(0).unwrap().value(), b"seen".to_vec());
    assert_eq!(reader.append(Record::new(b"too".to_vec())), 1);
    assert_eq!(*writer.read(1).unwrap().value(), b"too".to_vec());
}

#[test]
fn a_record_outlives_the_handle_it_was_read_through() {
    let shared = SharedLog::new();
    shared.append(Record::new(b"kept".to_vec()));
    let record = shared.clone().read(0).unwrap();
    drop(shared);
    assert_eq!(*record.value(), b"kept".to_vec());
}

#[test]
fn concurrent_appends_get_distinct_contiguous_offsets() {
    let workers: u8 = 8;
    let rounds: u8 = 250;
    let runtime = tokio::runtime::Builder::new_multi_thread().worker_threads(4).build().unwrap();
    let shared = SharedLog::new();
    let mut running = Vec::new();
    for worker in 0..workers {
        let handle = shared.clone();
        running.push(runtime.spawn_blocking(move || {
            let mut offsets = Vec::new();
            for round in 0..rounds {
                offsets.push((handle.append(Record::new(vec![worker, round])), round));
            }
            (worker, offsets)
        }));
    }
    let total = workers as usize * rounds as usize;
    let mut seen = vec![false; total];
    for task in running {
        let (worker, offsets) = runtime.block_on(task).unwrap();
        let mut last: Option<usize> = None;
        for (offset, round) in offsets {
            assert!(offset < total);
            assert!(!seen[offset]);
            seen[offset] = true;
            assert!(last.map_or(true, |earlier| earlier < offset));
            last = Some(offset);
            let record = shared.read(offset).unwrap();
            assert_eq!(*record.value(), vec![worker, round]);
            assert_eq!(record.offset(), offset);
        }
    }
    assert!(seen.iter().all(|&taken| taken));
    assert!(shared.read(total - 1).is_ok());
    assert!(shared.read(total).is_err());
}

#[test]
fn concurrent_reads_see_whole_records_or_none() {
    let rounds: usize = 500;
    let runtime = tokio::runtime::Builder::new_multi_thread().worker_threads(4).build().unwrap();
    let shared = SharedLog::new();
    let writer = shared.clone();
    let writing = runtime.spawn_blocking(move || {
        for round in 0..rounds {
            assert_eq!(writer.append(Record::new(round.to_le_bytes().to_vec())), round);
        }
    });
    let mut reading = Vec::new();
    for _ in 0..3 {
        let reader = shared.clone();
        reading.push(runtime.spawn_blocking(move || {
            let mut next = 0;
            while next < rounds {
                match reader.read(next) {
                    Ok(record) => {
                        assert_eq!(*record.value(), next.to_le_bytes().to_vec());
                        assert_eq!(record.offset(), next);
                        next += 1;
                    }
                    Err(error) => {
                        assert_eq!(error.message, format!("Offset {} not found", next));
                        for _ in 0..2000 {
                            std::hint::spin_loop();
                        }
                    }
                }
            }
        }));
    }
    runtime.block_on(writing).unwrap();
    for task in reading {
        runtime.block_on(task).unwrap();
    }
    assert!(shared.read(rounds).is_err());
}
