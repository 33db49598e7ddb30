use tuhucar::car::{car_match_result, dry_run_line, CarCommand, CarMatchInput};
use tuhucar::error::TuhucarError;
use tuhucar::knowledge::{
    dialogue_ids, dry_run_line as knowledge_dry_run_line, gateway_reply, GatewayData, GatewayEnvelope, KnowledgeCommand,
    KnowledgeQueryInput, KnowledgeQueryOutput, TOOL_NAME,
};
use tuhucar::types::Render;

#[test]
fn knowledge_output_markdown_returns_reply() {
    let output = KnowledgeQueryOutput {
        reply: "建议每5000公里更换一次机油".into(),
        session_id: "s1".into(),
        msg_id: "m1".into(),
    };
    assert!(output.to_markdown().contains("5000公里"));
}

#[test]
fn knowledge_output_markdown_is_plain_reply() {
    let output = KnowledgeQueryOutput {
        reply: "简单答案".into(),
        session_id: "s".into(),
        msg_id: "m".into(),
    };
    assert_eq!(output.to_markdown(), "简单答案");
}

#[test]
fn dialogue_ids_use_time_and_counter() {
    let ids = dialogue_ids(None, 1700000000123, 7);
    assert_eq!(ids.session_id, "1700000000123");
    assert_eq!(ids.msg_id, "1700000000123007");
    let ids = dialogue_ids(Some("sess-1"), 5, 1042);
    assert_eq!(ids.session_id, "sess-1");
    assert_eq!(ids.msg_id, "5042");
    let ids = dialogue_ids(None, 0, 999);
    assert_eq!(ids.msg_id, "0999");
    assert!(ids.msg_id.chars().all(|c| c.is_ascii_digit()));
    assert_ne!(dialogue_ids(None, 9, 1).msg_id, dialogue_ids(None, 9, 2).msg_id);
}

/// Builds the gateway answer from its JSON text, as the client decodes it.
fn decode_envelope(body: &str) -> Result<GatewayEnvelope, String> {
    let v: serde_json::Value = serde_json::from_str(body).map_err(|e| e.to_string())?;
    let text = |o: &serde_json::Value, k: &str| o.get(k).and_then(|x| x.as_str()).map(|s| s.to_string());
    Ok(GatewayEnvelope {
        code: v.get("code").and_then(|c| c.as_i64()).ok_or("missing field `code`")?,
        message: text(&v, "message"),
        data: match v.get("data") {
            Some(d) if !d.is_null() => Some(GatewayData {
                reply: text(d, "reply").ok_or("missing field `reply`")?,
                session_id: text(d, "sessionId").ok_or("missing field `sessionId`")?,
                msg_id: text(d, "msgId").ok_or("missing field `msgId`")?,
            }),
            _ => None,
        },
    })
}

#[test]
fn parses_gateway_envelope() {
    let body = r#"{"code":10000,"data":{"reply":"换机油","sessionId":"s","msgId":"m"},"message":"ok"}"#;
    let env = decode_envelope(body).unwrap();
    assert_eq!(env.code, 10000);
    let out = gateway_reply(Ok(env), body).unwrap();
    assert_eq!(out.reply, "换机油");
    assert_eq!(out.session_id, "s");
    assert_eq!(out.msg_id, "m");
}

#[test]
fn empty_response_returns_car_not_found() {
    let json = "[]";
    let candidates: Vec<serde_json::Value> = serde_json::from_str(json).unwrap();
    assert!(candidates.is_empty());
    match car_match_result(candidates) {
        Err(TuhucarError::CarNotFound { .. }) => {}
        _ => panic!("expected CarNotFound"),
    }
}

#[test]
fn gateway_failures() {
    let parts = |e: TuhucarError| match e {
        TuhucarError::McpError { code, message } => (code, message),
        _ => panic!("not an MCP error"),
    };
    let (c, m) = parts(gateway_reply(Err("eof".into()), "{").unwrap_err());
    assert_eq!(c, -1);
    assert_eq!(m, "Failed to parse knowledge response: eof: {");
    let env = GatewayEnvelope {
        code: 40001,
        message: Some("bad session".into()),
        data: None,
    };
    let (c, m) = parts(gateway_reply(Ok(env), "").unwrap_err());
    assert_eq!(c, 40001);
    assert_eq!(m, "bad session");
    let env = GatewayEnvelope {
        code: 500,
        message: None,
        data: None,
    };
    let (_, m) = parts(gateway_reply(Ok(env), "").unwrap_err());
    assert_eq!(m, "Knowledge gateway returned non-success code");
    let env = GatewayEnvelope {
        code: 10000,
        message: None,
        data: None,
    };
    let (c, m) = parts(gateway_reply(Ok(env), "").unwrap_err());
    assert_eq!(c, -1);
    assert_eq!(m, "Knowledge gateway returned no data");
}

#[test]
fn knowledge_command_schema() {
    let cmd = KnowledgeCommand::new(());
    assert_eq!(cmd.name(), "knowledge.query");
    assert_eq!(cmd.description(), "查询养车知识");
    let errs = cmd.error_schemas();
    assert_eq!(errs.len(), 1);
    assert_eq!(errs[0].code, "MCP_ERROR");
    assert!(errs[0].retryable);
    let s = KnowledgeCommand::<()>::schema_static("{}".into(), "{\"type\":\"object\"}".into());
    assert_eq!(s.name, "knowledge.query");
    assert_eq!(s.input, "{}");
    assert_eq!(s.errors.len(), 1);
    assert_eq!(TOOL_NAME, "mkt-intelligent-skill-dialogue");
    let input = KnowledgeQueryInput {
        question: "q".into(),
        session_id: None,
    };
    assert!(input.session_id.is_none());
}

#[test]
fn car_match_needs_a_candidate() {
    match car_match_result::<u32>(vec![]) {
        Err(TuhucarError::CarNotFound { suggestion }) => {
            assert_eq!(suggestion, "请提供更精确的车型描述，如品牌+车系+年款")
        }
        _ => panic!("expected CarNotFound"),
    }
    let r = car_match_result(vec![3u32, 4]).unwrap();
    assert_eq!(r.total_count, 2);
    assert_eq!(r.candidates, vec![3, 4]);
}

#[test]
fn car_command_schema_and_dry_run() {
    let cmd = CarCommand::new(1u8);
    assert_eq!(*cmd.client_ref(), 1);
    assert_eq!(cmd.name(), "car.match");
    let errs = cmd.error_schemas();
    assert_eq!(errs.len(), 2);
    assert_eq!(errs[0].code, "CAR_NOT_FOUND");
    assert!(!errs[0].retryable);
    let s = CarCommand::<u8>::schema_static("{}".into(), "{}".into());
    assert_eq!(s.name, "car.match");
    assert_eq!(s.description, "模糊匹配五级车型");
    assert_eq!(
        dry_run_line("朗逸"),
        "MCP tools/call car_match {\"query\":\"朗逸\"}"
    );
    let input = CarMatchInput {
        query: "朗逸".into(),
    };
    assert_eq!(input.query, "朗逸");
}

#[test]
fn knowledge_dry_run_line_shows_question_and_session() {
    assert_eq!(
        knowledge_dry_run_line("机油多久换", &None),
        "MCP tools/call mkt-intelligent-skill-dialogue {\"question\":\"机油多久换\",\"session_id\":None}"
    );
    assert_eq!(
        knowledge_dry_run_line("q", &Some("s1".to_string())),
        "MCP tools/call mkt-intelligent-skill-dialogue {\"question\":\"q\",\"session_id\":Some(\"s1\")}"
    );
}

#[test]
fn live_schema_matches_static_schema() {
    let k = KnowledgeCommand::new(());
    let live = k.schema("{}".into(), "{\"type\":\"object\"}".into());
    let fixed = KnowledgeCommand::<()>::schema_static("{}".into(), "{\"type\":\"object\"}".into());
    assert_eq!(live.name, fixed.name);
    assert_eq!(live.name, "knowledge.query");
    assert_eq!(live.description, fixed.description);
    assert_eq!(live.input, fixed.input);
    assert_eq!(live.wire_output, fixed.wire_output);
    assert_eq!(live.errors.len(), 1);
    assert_eq!(live.errors[0].code, fixed.errors[0].code);
    assert_eq!(live.errors[0].description, "MCP 服务调用失败");
    assert!(live.errors[0].retryable);
    let c = CarCommand::new(5u8);
    let live = c.schema("{}".into(), "{}".into());
    let fixed = CarCommand::<u8>::schema_static("{}".into(), "{}".into());
    assert_eq!(live.name, fixed.name);
    assert_eq!(live.errors.len(), 2);
    assert_eq!(live.errors[0].code, "CAR_NOT_FOUND");
    assert_eq!(live.errors[1].code, fixed.errors[1].code);
}
