use mistralrs_gateway::GatewayError;
use mistralrs_gateway::bridge::EngineEvent;
use mistralrs_gateway::bridge::Response;
use mistralrs_gateway::bridge::finish;
use mistralrs_gateway::bridge::prepare;
use mistralrs_gateway::payload::Payload;
use mistralrs_gateway::request::Message;
use mistralrs_gateway::request::Request;
use mistralrs_gateway::request::StopTokens;
use mistralrs_gateway::request::normalize;

fn bare_request() -> Request {
    Request {
        messages: Vec::new(),
        model: "mistral".to_string(),
        logit_bias: None,
        logprobs: false,
        top_logprobs: None,
        max_tokens: None,
        n_choices: 1,
        presence_penalty: None,
        repetition_penalty: None,
        stop_token_ids: None,
        temperature: None,
        top_p: None,
        top_k: None,
    }
}

#[test]
fn top_n_logprobs_defaults_to_one() {
    let req = bare_request();
    let ir = normalize(&req, "prompt".to_string());
    assert_eq!(ir.sampling_params.top_n_logprobs, 1);
}

#[test]
fn top_n_logprobs_keeps_callers_count() {
    let mut req = bare_request();
    req.top_logprobs = Some(7);
    let ir = normalize(&req, "prompt".to_string());
    assert_eq!(ir.sampling_params.top_n_logprobs, 7);
}

#[test]
fn stop_token_ids_pass_through_in_order() {
    let mut req = bare_request();
    req.stop_token_ids = Some(vec![42, 7, 42, 9]);
    let ir = normalize(&req, "prompt".to_string());
    match ir.sampling_params.stop_toks {
        Some(StopTokens::Ids(ids)) => assert_eq!(ids, vec![42, 7, 42, 9]),
        None => panic!("stop condition was dropped"),
    }
}

#[test]
fn optional_fields_pass_through_unchanged() {
    let mut req = bare_request();
    req.logprobs = true;
    req.max_tokens = Some(128);
    req.temperature = Some(0.7f64.to_bits());
    req.top_p = Some(0.9f64.to_bits());
    req.top_k = Some(40);
    req.presence_penalty = Some(0.5f32.to_bits());
    req.repetition_penalty = Some(1.1f32.to_bits());
    let ir = normalize(&req, "prompt".to_string());
    assert!(ir.return_logprobs);
    assert_eq!(ir.prompt, "prompt");
    assert_eq!(ir.sampling_params.max_len, Some(128));
    assert_eq!(ir.sampling_params.temperature, Some(0.7f64.to_bits()));
    assert_eq!(ir.sampling_params.top_p, Some(0.9f64.to_bits()));
    assert_eq!(ir.sampling_params.top_k, Some(40));
    assert_eq!(ir.sampling_params.presence_penalty, Some(0.5f32.to_bits()));
    assert_eq!(ir.sampling_params.repeat_penalty, Some(1.1f32.to_bits()));
}

#[test]
fn minimal_request_scenario() {
    // One user message, no optional fields: the internal request carries the
    // defaults, and a completed reply comes back serialized.
    let mut req = bare_request();
    req.messages = vec![Message { role: "user".to_string(), content: "Hi".to_string() }];
    let prepared = prepare(&req, Ok("<user> Hi".to_string()));
    let ir = match prepared {
        Ok(ir) => ir,
        Err(_) => panic!("preparation must succeed on a formatted prompt"),
    };
    assert_eq!(ir.sampling_params.top_n_logprobs, 1);
    assert_eq!(ir.sampling_params.max_len, None);
    assert!(ir.sampling_params.stop_toks.is_none());

    let done = EngineEvent::Reply(Response::Done(Payload { text: "Hello".to_string() }));
    let out = finish(done);
    assert_eq!(out.ok(), Some("{\"text\":\"Hello\"}".to_string()));
}

#[test]
fn engine_error_surfaces_verbatim() {
    let event = EngineEvent::Reply(Response::Error("out of memory".to_string()));
    match finish(event) {
        Err(GatewayError::Engine(m)) => assert_eq!(m, "out of memory"),
        _ => panic!("an engine failure must surface as an engine error"),
    }
}

#[test]
fn closed_channel_is_transport_error() {
    match finish(EngineEvent::Closed) {
        Err(GatewayError::Transport(_)) => {}
        _ => panic!("a closed reply channel must surface as a transport error"),
    }
}

#[test]
fn formatter_rejection_is_validation_error() {
    // A rejected message history never yields an internal request.
    let req = bare_request();
    match prepare(&req, Err("malformed role sequence".to_string())) {
        Err(GatewayError::Validation(m)) => assert_eq!(m, "malformed role sequence"),
        _ => panic!("a formatter rejection must surface as a validation error"),
    }
}

#[test]
fn gateway_error_exposes_its_message() {
    assert_eq!(GatewayError::Validation("v".to_string()).message(), "v");
    assert_eq!(GatewayError::Transport("t".to_string()).message(), "t");
    assert_eq!(GatewayError::Engine("e".to_string()).message(), "e");
    assert_eq!(GatewayError::Device("d".to_string()).message(), "d");
}
