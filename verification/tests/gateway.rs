use serenity::compression::{Compression, TransportCompression};
use serenity::error::{CloseInfo, Error};
use serenity::json::{json_to_bytes, Json};
use serenity::message::{
    chunk_guild_message, heartbeat_message, identify_message, presence_update_message,
    resume_message, ActivityData, ChunkGuildFilter, GatewayIntents, OnlineStatus, PresenceData,
    ShardInfo,
};
use serenity::model::{GuildId, UserId};
use serenity::transport::{parse_event, process_frame, GatewayEvent, WsFrame};

use std::io::Write;

fn to_value(j: &Json) -> serde_json::Value {
    let bytes = json_to_bytes(j);
    serde_json::from_slice(&bytes).expect("serializer must produce valid JSON")
}

#[test]
fn heartbeat_exact_bytes() {
    let m = heartbeat_message(Some(42));
    assert_eq!(json_to_bytes(&m), b"{\"op\":1,\"d\":42}".to_vec());
    let m = heartbeat_message(None);
    assert_eq!(json_to_bytes(&m), b"{\"op\":1,\"d\":null}".to_vec());
    let m = heartbeat_message(Some(u64::MAX));
    assert_eq!(
        json_to_bytes(&m),
        b"{\"op\":1,\"d\":18446744073709551615}".to_vec()
    );
    let m = heartbeat_message(Some(0));
    assert_eq!(json_to_bytes(&m), b"{\"op\":1,\"d\":0}".to_vec());
}

#[test]
fn resume_round_trip_through_json() {
    let m = resume_message(b"session-abc", b"tok.en.value", 1234);
    let v = to_value(&m);
    assert_eq!(v["op"], 6);
    assert_eq!(v["d"]["session_id"], "session-abc");
    assert_eq!(v["d"]["token"], "tok.en.value");
    assert_eq!(v["d"]["seq"], 1234);
}

#[test]
fn identify_round_trip_through_json() {
    let presence = PresenceData {
        activity: Some(ActivityData {
            name: b"hello".to_vec(),
            kind: 0,
            state: Some(b"s\"tate".to_vec()),
            url: None,
        }),
        status: OnlineStatus::Idle,
    };
    let m = identify_message(
        b"my.secret.token",
        &ShardInfo::new(2, 5),
        GatewayIntents::from_bits_retain(0b1011),
        &presence,
        TransportCompression::Zstd,
        1700000000000,
        b"linux",
    );
    let v = to_value(&m);
    assert_eq!(v["op"], 2);
    let d = &v["d"];
    assert_eq!(d["compress"], false);
    assert_eq!(d["token"], "my.secret.token");
    assert_eq!(d["large_threshold"], 250);
    let shard = d["shard"].as_array().unwrap();
    assert_eq!(shard.len(), 2);
    assert_eq!(shard[0], 2);
    assert_eq!(shard[1], 5);
    assert_eq!(d["intents"], 11);
    assert_eq!(d["properties"]["browser"], "serenity");
    assert_eq!(d["properties"]["device"], "serenity");
    assert_eq!(d["properties"]["os"], "linux");
    assert_eq!(d["presence"]["afk"], false);
    assert_eq!(d["presence"]["status"], "idle");
    assert_eq!(d["presence"]["since"], 1700000000000u64);
    assert_eq!(d["presence"]["activities"][0]["name"], "hello");
    assert_eq!(d["presence"]["activities"][0]["state"], "s\"tate");
}

#[test]
fn presence_update_round_trip_through_json() {
    let presence = PresenceData {
        activity: None,
        status: OnlineStatus::DoNotDisturb,
    };
    let m = presence_update_message(&presence, 7);
    let v = to_value(&m);
    assert_eq!(v["op"], 3);
    assert_eq!(v["d"]["afk"], false);
    assert_eq!(v["d"]["status"], "dnd");
    assert_eq!(v["d"]["since"], 7);
    assert_eq!(v["d"]["activities"].as_array().unwrap().len(), 0);
}

#[test]
fn chunk_filter_none_gives_empty_query() {
    let m = chunk_guild_message(
        GuildId::new(9),
        None,
        false,
        ChunkGuildFilter::NoFilter,
        None,
    );
    let v = to_value(&m);
    assert_eq!(v["op"], 8);
    assert_eq!(v["d"]["guild_id"], 9);
    assert_eq!(v["d"]["query"], "");
    assert!(v["d"].get("user_ids").is_none());
    assert_eq!(v["d"]["limit"], 0);
    assert_eq!(v["d"]["nonce"], "");
}

#[test]
fn chunk_filter_query_gives_query_only() {
    let m = chunk_guild_message(
        GuildId::new(9),
        Some(25),
        true,
        ChunkGuildFilter::Query(b"foo".to_vec()),
        Some(b"nonce-1"),
    );
    let v = to_value(&m);
    assert_eq!(v["d"]["query"], "foo");
    assert!(v["d"].get("user_ids").is_none());
    assert_eq!(v["d"]["limit"], 25);
    assert_eq!(v["d"]["presences"], true);
    assert_eq!(v["d"]["nonce"], "nonce-1");
}

#[test]
fn chunk_filter_user_ids_gives_user_ids_only() {
    let m = chunk_guild_message(
        GuildId::new(9),
        None,
        false,
        ChunkGuildFilter::UserIds(vec![UserId::new(1), UserId::new(2), UserId::new(3)]),
        None,
    );
    let v = to_value(&m);
    assert!(v["d"].get("query").is_none());
    let ids = v["d"]["user_ids"].as_array().unwrap();
    assert_eq!(ids.len(), 3);
    assert_eq!(ids[0], 1);
    assert_eq!(ids[1], 2);
    assert_eq!(ids[2], 3);
}

#[test]
fn identify_compress_flag_follows_mode() {
    let presence = PresenceData {
        activity: None,
        status: OnlineStatus::Online,
    };
    for (mode, expected) in [
        (TransportCompression::Identity, true),
        (TransportCompression::Zlib, false),
        (TransportCompression::Zstd, false),
    ] {
        let m = identify_message(
            b"a.b.c",
            &ShardInfo::new(0, 1),
            GatewayIntents::from_bits_retain(0),
            &presence,
            mode,
            0,
            b"linux",
        );
        let v = to_value(&m);
        assert_eq!(v["d"]["compress"], expected, "mode {:?}", mode);
    }
}

#[test]
fn string_escaping_survives_serde_json() {
    let m = resume_message(b"quote\" backslash\\ newline\n tab\t nul\x00", b"t.o.k", 1);
    let v = to_value(&m);
    assert_eq!(
        v["d"]["session_id"],
        "quote\" backslash\\ newline\n tab\t nul\u{0}"
    );
}

fn zlib_stream_compress(payload: &[u8]) -> Vec<u8> {
    let mut enc = flate2::write::ZlibEncoder::new(Vec::new(), flate2::Compression::default());
    enc.write_all(payload).unwrap();
    enc.flush().unwrap();
    enc.get_ref().clone()
}

#[test]
fn streaming_zlib_reassembles_chunks() {
    let payload = b"{\"op\":11,\"message\":\"a reasonably long logical message body\"}";
    let compressed = zlib_stream_compress(payload);
    assert!(compressed.len() > 8);
    assert_eq!(&compressed[compressed.len() - 4..], &[0x00, 0x00, 0xFF, 0xFF]);

    let mut codec = Compression::new(TransportCompression::Zlib).unwrap();
    // feed in several arbitrarily-sized chunks; only the last completes
    let cuts = [1usize, 3, 7, compressed.len() - 5];
    let mut prev = 0usize;
    for &cut in &cuts {
        let r = codec.inflate(&compressed[prev..cut]).unwrap();
        assert!(r.is_none(), "chunk ending at {cut} must be incomplete");
        prev = cut;
    }
    let out = codec.inflate(&compressed[prev..]).unwrap();
    assert_eq!(out.expect("final chunk completes the message"), payload.to_vec());
}

#[test]
fn streaming_zlib_single_shot_equals_chunked() {
    let payload = b"payload compared against a single-shot decompression";
    let compressed = zlib_stream_compress(payload);

    let mut whole = Compression::new(TransportCompression::Zlib).unwrap();
    let single = whole.inflate(&compressed).unwrap().unwrap();

    let mut chunked = Compression::new(TransportCompression::Zlib).unwrap();
    let mid = compressed.len() / 2;
    assert!(chunked.inflate(&compressed[..mid]).unwrap().is_none());
    let rejoined = chunked.inflate(&compressed[mid..]).unwrap().unwrap();

    assert_eq!(single, rejoined);
    assert_eq!(single, payload.to_vec());
}

#[test]
fn streaming_zlib_retains_bytes_without_marker() {
    let payload = b"bytes must never be dropped across calls";
    let compressed = zlib_stream_compress(payload);
    let without_marker = &compressed[..compressed.len() - 4];

    let mut codec = Compression::new(TransportCompression::Zlib).unwrap();
    // withhold the marker: every feed returns None
    assert!(codec.inflate(&without_marker[..5]).unwrap().is_none());
    assert!(codec.inflate(&without_marker[5..]).unwrap().is_none());
    assert!(codec.inflate(&[]).unwrap().is_none());
    // feeding the marker completes the message with nothing lost
    let out = codec.inflate(&compressed[compressed.len() - 4..]).unwrap();
    assert_eq!(out.expect("marker completes the message"), payload.to_vec());
}

fn zstd_compress_whole(payload: &[u8]) -> Vec<u8> {
    let mut out: Vec<u8> = Vec::with_capacity(zstd_safe::compress_bound(payload.len()));
    zstd_safe::compress(&mut out, payload, 3).expect("compression succeeds");
    out
}

#[test]
fn streaming_zstd_incomplete_frame_gives_none_then_completes() {
    let payload = b"a zstd message split across two physical frames";
    let compressed = zstd_compress_whole(payload);
    assert!(compressed.len() > 10);

    let mut codec = Compression::new(TransportCompression::Zstd).unwrap();
    let cut = compressed.len() - 4;
    let first = codec.inflate(&compressed[..cut]).unwrap();
    assert!(first.is_none(), "incomplete frame must be a normal no-message condition");
    let second = codec.inflate(&compressed[cut..]).unwrap();
    assert_eq!(second.expect("frame completes"), payload.to_vec());
}

#[test]
fn streaming_zstd_complete_frame_in_one_call() {
    let payload = b"one whole frame in one call";
    let compressed = zstd_compress_whole(payload);
    let mut codec = Compression::new(TransportCompression::Zstd).unwrap();
    let out = codec.inflate(&compressed).unwrap();
    assert_eq!(out.expect("complete frame yields the message"), payload.to_vec());
}

#[test]
fn streaming_zstd_stall_is_corruption_not_decode_error() {
    // A message larger than the fixed output scratch makes the decoder stall
    // (no input progress while unread input remains): the distinct
    // corrupted-stream error, not the generic decode failure and not None.
    let payload = vec![7u8; 200_000];
    let compressed = zstd_compress_whole(&payload);
    let mut codec = Compression::new(TransportCompression::Zstd).unwrap();
    let r = codec.inflate(&compressed);
    assert!(
        matches!(r, Err(Error::DecompressZstdCorrupted)),
        "expected the corrupted-stream error, got {:?}",
        r
    );
}

#[test]
fn streaming_zstd_garbage_gives_decode_error() {
    let mut codec = Compression::new(TransportCompression::Zstd).unwrap();
    let garbage = [0x12u8, 0x34, 0x56, 0x78, 0x9A, 0xBC, 0xDE, 0xF0];
    let r = codec.inflate(&garbage);
    assert!(
        matches!(r, Err(Error::DecompressZstd(_))),
        "expected the generic decode error, got {:?}",
        r
    );
}

#[test]
fn identity_inflates_each_frame_independently() {
    let payload = b"{\"op\":11,\"d\":null}";
    let mut enc = flate2::write::ZlibEncoder::new(Vec::new(), flate2::Compression::default());
    enc.write_all(payload).unwrap();
    let compressed = enc.finish().unwrap();

    let mut codec = Compression::new(TransportCompression::Identity).unwrap();
    let out = codec.inflate(&compressed).unwrap();
    assert_eq!(out.expect("identity mode never returns None on success"), payload.to_vec());
    // a second, independent frame
    let out2 = codec.inflate(&compressed).unwrap();
    assert_eq!(out2.unwrap(), payload.to_vec());

    let r = codec.inflate(b"not a zlib stream");
    assert!(matches!(r, Err(Error::DecompressZlib)));
}

#[test]
fn parse_event_hello() {
    let ev = parse_event(b"{\"t\":null,\"s\":null,\"op\":10,\"d\":{\"heartbeat_interval\":41250,\"_trace\":[\"x\"]}}").unwrap();
    assert!(matches!(ev, GatewayEvent::Hello { heartbeat_interval: 41250 }));
}

#[test]
fn parse_event_dispatch_keeps_verbatim_text() {
    let text = b"{\"t\":\"MESSAGE_CREATE\",\"s\":17,\"op\":0,\"d\":{\"content\":\"hi\",\"n\":[1,2,{\"k\":null}]}}";
    let ev = parse_event(text).unwrap();
    match ev {
        GatewayEvent::Dispatch { seq_num, name, original_str } => {
            assert_eq!(seq_num, 17);
            assert_eq!(name, b"MESSAGE_CREATE".to_vec());
            assert_eq!(original_str, text.to_vec());
        },
        other => panic!("expected a dispatch event, got {:?}", debug_kind(&other)),
    }
}

fn debug_kind(ev: &GatewayEvent) -> &'static str {
    match ev {
        GatewayEvent::Dispatch { .. } => "Dispatch",
        GatewayEvent::Heartbeat => "Heartbeat",
        GatewayEvent::Reconnect => "Reconnect",
        GatewayEvent::InvalidateSession { .. } => "InvalidateSession",
        GatewayEvent::Hello { .. } => "Hello",
        GatewayEvent::HeartbeatAck => "HeartbeatAck",
    }
}

#[test]
fn parse_event_other_opcodes() {
    assert!(matches!(
        parse_event(b"{\"op\":11,\"d\":null}").unwrap(),
        GatewayEvent::HeartbeatAck
    ));
    assert!(matches!(
        parse_event(b"{\"op\":7,\"d\":null}").unwrap(),
        GatewayEvent::Reconnect
    ));
    assert!(matches!(
        parse_event(b"{\"op\":1,\"d\":null}").unwrap(),
        GatewayEvent::Heartbeat
    ));
    assert!(matches!(
        parse_event(b"{\"op\":9,\"d\":false}").unwrap(),
        GatewayEvent::InvalidateSession { resumable: false }
    ));
    assert!(matches!(
        parse_event(b"{\"op\":9,\"d\":true}").unwrap(),
        GatewayEvent::InvalidateSession { resumable: true }
    ));
}

#[test]
fn parse_event_rejects_malformed_text() {
    match parse_event(b"not json") {
        Err(Error::Json(text)) => assert_eq!(text, "not json"),
        _ => panic!("expected a Json error carrying the offending text"),
    }
    assert!(matches!(parse_event(b"{\"s\":1}"), Err(Error::Json(_))));
    assert!(matches!(parse_event(b"{\"op\":10,\"d\":{}}"), Err(Error::Json(_))));
    assert!(matches!(parse_event(b"{\"op\":1} trailing"), Err(Error::Json(_))));
    assert!(matches!(parse_event(b"{\"op\":99,\"d\":null}"), Err(Error::Json(_))));
}

#[test]
fn timeout_yields_no_event_and_connection_stays_usable() {
    let mut codec = Compression::new(TransportCompression::Zlib).unwrap();
    // no frame within the bound: no event, not an error
    let r = process_frame(&mut codec, None);
    assert!(matches!(r, Ok(None)));
    // a later call continues to function normally
    let r = process_frame(&mut codec, None);
    assert!(matches!(r, Ok(None)));
    let r = process_frame(
        &mut codec,
        Some(WsFrame::Text(b"{\"op\":11,\"d\":null}".to_vec())),
    );
    assert!(matches!(r, Ok(Some(GatewayEvent::HeartbeatAck))));
}

#[test]
fn explicit_close_is_an_error_distinct_from_timeout() {
    let mut codec = Compression::new(TransportCompression::Zlib).unwrap();
    let close = WsFrame::Close(Some(CloseInfo { code: 4004, reason: "bad auth".to_owned() }));
    let r = process_frame(&mut codec, Some(close));
    match r {
        Err(Error::Closed(Some(info))) => {
            assert_eq!(info.code, 4004);
            assert_eq!(info.reason, "bad auth");
        },
        other => panic!("expected a Closed error, got Ok={:?}", other.is_ok()),
    }
    // the timeout outcome is not an error at all
    assert!(matches!(process_frame(&mut codec, None), Ok(None)));
}

#[test]
fn binary_frame_routes_through_codec() {
    let payload = b"{\"op\":10,\"d\":{\"heartbeat_interval\":1000}}";
    let compressed = zlib_stream_compress(payload);
    let mut codec = Compression::new(TransportCompression::Zlib).unwrap();
    let mid = compressed.len() - 4;
    let r = process_frame(&mut codec, Some(WsFrame::Binary(compressed[..mid].to_vec())));
    assert!(matches!(r, Ok(None)), "incomplete message is no event");
    let r = process_frame(&mut codec, Some(WsFrame::Binary(compressed[mid..].to_vec())));
    assert!(matches!(r, Ok(Some(GatewayEvent::Hello { heartbeat_interval: 1000 }))));
}

#[test]
fn parse_event_accepts_surrogate_pair_escapes() {
    // an escaped emoji (a surrogate pair) inside the payload must not make
    // the envelope unreadable
    let text = b"{\"t\":\"MESSAGE_CREATE\",\"s\":5,\"op\":0,\"d\":{\"content\":\"\\ud83d\\ude00\"}}";
    let ev = parse_event(text).unwrap();
    assert!(matches!(ev, GatewayEvent::Dispatch { seq_num: 5, .. }));
    // and in the event name itself the pair decodes to the UTF-8 bytes
    let named = b"{\"t\":\"\\ud83d\\ude00\",\"s\":1,\"op\":0,\"d\":null}";
    match parse_event(named).unwrap() {
        GatewayEvent::Dispatch { name, .. } => {
            assert_eq!(name, "\u{1F600}".as_bytes().to_vec());
        },
        _ => panic!("expected a dispatch event"),
    }
}

#[test]
fn parse_event_rejects_lone_surrogate_escape() {
    let text = b"{\"op\":0,\"s\":1,\"t\":\"A\",\"d\":\"\\ud83d\"}";
    assert!(matches!(parse_event(text), Err(Error::Json(_))));
}

#[test]
fn error_descriptions_are_fixed_texts() {
    assert_eq!(Error::Closed(None).description(), "Connection closed");
    assert_eq!(Error::DecompressZlib.description(), "Zlib decompression error");
    assert_eq!(Error::DecompressZstd(70).description(), "Zstd decompression error: 70");
    assert_eq!(
        Error::DecompressZstdCorrupted.description(),
        "Zstd decompression error: corrupted data"
    );
    assert_eq!(Error::BuildingUrl.description(), "Error building url");
}
