use iotdb::common::{Compressor, DataType, Encoding, ProtocolVersion};
use iotdb::dataset::DataSet;
use iotdb::rpc::{TSExecuteStatementResp, TSGetTimeZoneResp, TSOpenSessionResp, TSQueryDataSet, TSStatus};
use iotdb::session::{ConfigBuilder, Session};
use iotdb::SUCCESS_CODE;

fn ok_status() -> TSStatus {
    TSStatus {
        code: SUCCESS_CODE,
        message: None,
    }
}

/// One full session against fabricated server replies: open, create a time
/// series behind an existence probe, insert a value, query it back, close.
#[test]
fn full_session_round_trip() {
    let config = ConfigBuilder::new().user("root").password("root").build();
    let mut session = Session::new(config);

    // Handshake: the server accepts, echoes the requested protocol version,
    // and assigns session id 7; the follow-up round-trip assigns statement
    // id 3.
    let open_req = session.open().unwrap();
    assert_eq!(open_req.username, "root");
    assert_eq!(open_req.password, "root");
    let open_resp = TSOpenSessionResp {
        status: ok_status(),
        server_protocol_version: ProtocolVersion::V3.to_code(),
        session_id: Some(7),
    };
    let sid = session.apply_open_resp(&open_resp).unwrap();
    assert_eq!(sid, 7);
    session.complete_open(sid, 3).unwrap();
    assert!(session.is_open());
    assert_eq!(session.session_id, 7);
    assert_eq!(session.statement_id, 3);

    // create_time_series first probes for existence; the server reports no
    // result rows, so the series does not exist and the create goes out.
    let path = "root.ln.wf01.wt01.temperature";
    let probe = session.check_time_series_exists(path).unwrap();
    assert_eq!(probe.statement, format!("SHOW TIMESERIES {}", path));
    assert_eq!(probe.session_id, 7);
    let probe_resp = TSExecuteStatementResp {
        status: ok_status(),
        columns: None,
        data_type_list: None,
        column_name_index_map: None,
        ignore_time_stamp: None,
        query_id: None,
        query_data_set: Some(TSQueryDataSet {
            time: vec![],
            bitmap_list: vec![],
            value_list: vec![],
        }),
    };
    assert!(!Session::time_series_exists(&probe_resp));
    let create_req = session
        .create_time_series_unless_present(
            path,
            DataType::FLOAT,
            Encoding::RLE,
            Compressor::SNAPPY,
            &probe_resp,
        )
        .unwrap()
        .expect("an absent series owes a create request");
    assert_eq!(create_req.session_id, 7);
    assert_eq!(create_req.path, path);
    Session::apply_status(ok_status()).unwrap();

    // A probe whose reply carries result rows reports the series as present,
    // and the create short-circuits: no request goes out.
    let present_resp = TSExecuteStatementResp {
        query_data_set: Some(TSQueryDataSet {
            time: vec![],
            bitmap_list: vec![vec![0x80]],
            value_list: vec![vec![0]],
        }),
        ..probe_resp
    };
    assert!(Session::time_series_exists(&present_resp));
    let short_circuit = session
        .create_time_series_unless_present(
            path,
            DataType::FLOAT,
            Encoding::RLE,
            Compressor::SNAPPY,
            &present_resp,
        )
        .unwrap();
    assert!(short_circuit.is_none());

    // Insert one record, then query it back.
    let timestamp: i64 = 1622400000000;
    let temperature: f32 = 36.5;
    let insert = session
        .sql(&format!(
            "INSERT INTO root.ln.wf01.wt01(timestamp,temperature) values({},{})",
            timestamp, temperature
        ))
        .unwrap();
    assert_eq!(insert.session_id, 7);
    Session::apply_status(ok_status()).unwrap();

    let query = session.sql("select * from root.ln").unwrap();
    assert_eq!(query.statement_id, 3);
    let query_resp = TSExecuteStatementResp {
        status: ok_status(),
        columns: Some(vec![path.to_string()]),
        data_type_list: Some(vec!["FLOAT".to_string()]),
        column_name_index_map: None,
        ignore_time_stamp: Some(false),
        query_id: Some(21),
        query_data_set: Some(TSQueryDataSet {
            time: timestamp.to_be_bytes().to_vec(),
            bitmap_list: vec![vec![0x80]],
            value_list: vec![temperature.to_be_bytes().to_vec()],
        }),
    };
    let ds = DataSet::new(
        query.statement.clone(),
        session.session_id,
        session.fetch_size,
        query_resp,
    )
    .unwrap();
    assert_eq!(ds.headers(), vec!["Time".to_string(), path.to_string()]);
    assert_eq!(ds.query_id, Some(21));
    assert_eq!(ds.record_batch.values.len(), 1);
    let row = &ds.record_batch.values[0];
    assert_eq!(row.timestamp, Some(timestamp));
    // The decoded cell carries the exact IEEE-754 bit pattern that was sent.
    assert_eq!(row.fields[0].float_value, Some(temperature.to_bits()));
    assert_eq!(row.fields[0].data_type, DataType::FLOAT);

    // Close: one request, then the session is closed; a second close sends
    // nothing and succeeds.
    let close_req = session.close().unwrap();
    assert_eq!(close_req.session_id, 7);
    session.apply_close_resp(ok_status()).unwrap();
    assert!(session.is_close());
    assert!(session.close().is_none());
}

#[test]
fn time_zone_reply_follows_the_status_contract() {
    let ok = TSGetTimeZoneResp {
        status: ok_status(),
        time_zone: "UTC+8".to_string(),
    };
    assert_eq!(Session::time_zone_from_resp(&ok).unwrap(), "UTC+8");
    let bad = TSGetTimeZoneResp {
        status: TSStatus {
            code: 500,
            message: Some("no zone".to_string()),
        },
        time_zone: "UTC+8".to_string(),
    };
    match Session::time_zone_from_resp(&bad) {
        Err(iotdb::errors::IotDBError::Application(m)) => assert_eq!(m, "no zone"),
        other => panic!("expected an application error, got {:?}", other),
    }
    let silent = TSGetTimeZoneResp {
        status: TSStatus {
            code: 500,
            message: None,
        },
        time_zone: String::new(),
    };
    match Session::time_zone_from_resp(&silent) {
        Err(iotdb::errors::IotDBError::Application(m)) => assert_eq!(m, "None"),
        other => panic!("expected an application error, got {:?}", other),
    }
}

#[test]
fn is_success_matches_the_one_success_code() {
    let s = Session::new(ConfigBuilder::new().build());
    assert!(s.is_success(&ok_status()));
    assert!(!s.is_success(&TSStatus {
        code: 201,
        message: None,
    }));
}
