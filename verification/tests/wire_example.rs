use avail_da::{
    Action, AvailBlock, Confidence, DaError, DaProvider, DaServiceConfig, Endpoint, Event,
    ExtrinsicsData, Retrieval,
};

fn provider() -> DaProvider {
    DaProvider::new(DaServiceConfig {
        light_client_url: "http://127.0.0.1:7000".to_string(),
        node_client_url: "ws://127.0.0.1:9944".to_string(),
        seed: "//Alice".to_string(),
        app_id: 1,
    })
}

fn confidence_event(body: &str) -> Event<u32> {
    let parsed: Result<serde_json::Value, serde_json::Error> = serde_json::from_str(body);
    let value = parsed.ok().and_then(|json| json.get("confidence").and_then(|c| c.as_f64()));
    match value {
        Some(confidence) => Event::Confidence {
            confidence: Confidence::from_bits(confidence.to_bits()),
        },
        None => Event::Malformed,
    }
}

fn appdata_event(body: &str) -> Event<u32> {
    let parsed: Result<serde_json::Value, serde_json::Error> = serde_json::from_str(body);
    let json = match parsed {
        Ok(json) => json,
        Err(_) => return Event::Malformed,
    };
    let block = json.get("block").and_then(|b| b.as_u64());
    let texts = json.get("extrinsics").and_then(|e| e.as_array());
    let (block, texts) = match (block, texts) {
        (Some(block), Some(texts)) => (block, texts),
        _ => return Event::Malformed,
    };
    let mut extrinsics = Vec::new();
    for text in texts {
        match text.as_str().map(sp_core::bytes::from_hex) {
            Some(Ok(bytes)) => extrinsics.push(bytes),
            _ => return Event::Malformed,
        }
    }
    Event::Appdata { data: ExtrinsicsData { block, extrinsics } }
}

fn run(
    height: u64,
    confidence_body: &str,
    appdata_body: &str,
) -> (Option<Result<AvailBlock<u32>, DaError>>, Vec<Action>) {
    let mut retrieval: Retrieval<u32> = provider().get_block_at(height);
    let mut actions = Vec::new();
    for _ in 0..100 {
        let action = retrieval.action();
        actions.push(action.clone());
        let event = match action {
            Action::ReadClock => Event::Clock { now: 0 },
            Action::Get { .. } => Event::Status { code: 200 },
            Action::ReadBody { endpoint: Endpoint::Confidence } => {
                confidence_event(confidence_body)
            }
            Action::ReadBody { endpoint: Endpoint::Appdata } => appdata_event(appdata_body),
            Action::Sleep { .. } => Event::Woke,
            Action::LookupHash { .. } => Event::BlockHash { hash: Some([9; 32]) },
            Action::LookupHeader { .. } => Event::Header { header: Some(100) },
            Action::Stop => break,
        };
        retrieval = retrieval.step(event);
    }
    (retrieval.into_result(), actions)
}

#[test]
fn example_bodies_give_a_block_with_one_transaction() {
    let (result, actions) =
        run(100, r#"{"confidence": 95.0}"#, r#"{"block":100,"extrinsics":["0xAB"]}"#);
    let block = result.expect("the retrieval is over").expect("a block");
    assert_eq!(block.transactions.len(), 1);
    assert_eq!(block.transactions[0].blob, vec![0xAB]);
    assert_eq!(block.header.header, 100);
    assert!(!actions.iter().any(|action| matches!(action, Action::Sleep { .. })));
    assert!(actions.contains(&Action::Get {
        endpoint: Endpoint::Confidence,
        url: "http://127.0.0.1:7000/v1/confidence/100".to_string(),
    }));
    assert!(actions.contains(&Action::Get {
        endpoint: Endpoint::Appdata,
        url: "http://127.0.0.1:7000/v1/appdata/100".to_string(),
    }));
}

#[test]
fn example_body_without_confidence_is_malformed() {
    let (result, _) = run(100, r#"{"certainty": 95.0}"#, r#"{"block":100,"extrinsics":[]}"#);
    assert_eq!(result, Some(Err(DaError::MalformedResponse)));
}

#[test]
fn example_body_that_is_no_json_is_malformed() {
    let (result, _) = run(100, r#"{"confidence": 95.0}"#, "<html>");
    assert_eq!(result, Some(Err(DaError::MalformedResponse)));
}

#[test]
fn integer_confidence_in_the_body_is_a_number_like_any_other() {
    let (result, _) = run(100, r#"{"confidence": 93}"#, r#"{"block":100,"extrinsics":[]}"#);
    assert!(result.expect("the retrieval is over").expect("a block").transactions.is_empty());
    let (result, actions) =
        run(100, r#"{"confidence": 92}"#, r#"{"block":100,"extrinsics":[]}"#);
    assert_eq!(result, None);
    assert!(actions.iter().any(|action| matches!(action, Action::Sleep { .. })));
}
