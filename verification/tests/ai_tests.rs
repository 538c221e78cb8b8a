use tranrss::ai::{
    apply_results, batch_translations, combined_text, completions_url, deeplx_lines, deeplx_target_code,
    deeplx_url, fill_missing, first_choice, plan_batches, summary_of, title_blocks, translation_updates,
    unfenced, AiError, AiService, RetryStep, Translator, TOKEN_LIMIT,
};
use tranrss::api_config::ApiConfig;
use tranrss::article::ArticleBlock;

fn config(api_type: &str, base: Option<&str>, key: Option<&str>, settings: &str) -> ApiConfig {
    ApiConfig {
        id: 1,
        user_id: 1,
        name: "c".to_string(),
        api_type: api_type.to_string(),
        api_key: key.map(|k| k.to_string()),
        base_url: base.map(|b| b.to_string()),
        settings: settings.to_string(),
        timeout_seconds: 180,
        retry_count: 3,
        retry_interval_ms: 1000,
        retry_enabled: true,
    }
}

fn block(i: i32, text: &str) -> ArticleBlock {
    ArticleBlock { article_id: 7, block_index: i, raw_text: text.to_string(), trans_text: None }
}

#[test]
fn completions_url_forms() {
    assert_eq!(completions_url("https://api.openai.com/v1"), "https://api.openai.com/v1/chat/completions");
    assert_eq!(completions_url("https://api.openai.com/v1/"), "https://api.openai.com/v1/chat/completions");
    assert_eq!(completions_url("https://x/chat/completions"), "https://x/chat/completions");
}

#[test]
fn deeplx_url_forms() {
    assert_eq!(deeplx_url("http://deeplx:1188"), "http://deeplx:1188/translate");
    assert_eq!(deeplx_url("http://deeplx:1188/"), "http://deeplx:1188/translate");
    assert_eq!(deeplx_url("http://deeplx:1188/translate?token=1"), "http://deeplx:1188/translate?token=1");
}

#[test]
fn deeplx_language_codes() {
    assert_eq!(deeplx_target_code("Chinese"), "ZH");
    assert_eq!(deeplx_target_code("EN"), "EN");
    assert_eq!(deeplx_target_code("Japanese"), "JA");
    assert_eq!(deeplx_target_code("fr"), "FR");
    assert_eq!(deeplx_target_code("Klingon"), "ZH");
}

#[test]
fn combined_text_one_line_per_block() {
    let blocks = vec![block(0, "a\nb"), block(1, "c")];
    assert_eq!(combined_text(&blocks), "a b\nc");
}

#[test]
fn deeplx_reply_lines_and_errors() {
    let ok = deeplx_lines(200, "x\r\ny\n").ok().unwrap();
    assert_eq!(ok, vec!["x".to_string(), "y".to_string()]);
    match deeplx_lines(500, "boom") {
        Err(AiError::DeepLxCode { code, data }) => {
            assert_eq!(code, 500);
            assert_eq!(data, "boom");
        }
        _ => panic!("expected a DeepLX error"),
    }
}

#[test]
fn batches_cover_blocks_in_order_within_limit() {
    let counts = vec![1000, 2000, 1500, 5000, 10, 4000];
    let b = plan_batches(&counts);
    assert_eq!(b, vec![vec![0, 1], vec![2], vec![3], vec![4, 5]]);
    let flat: Vec<usize> = b.iter().flatten().cloned().collect();
    assert_eq!(flat, vec![0, 1, 2, 3, 4, 5]);
    for batch in &b {
        let total: usize = batch.iter().map(|i| counts[*i]).sum();
        assert!(total <= TOKEN_LIMIT || batch.len() == 1);
    }
    assert!(plan_batches(&[]).is_empty());
}

#[test]
fn unfenced_reply() {
    assert_eq!(unfenced("  ```json\n{\"0\":\"a\"}\n```  ").iter().collect::<String>(), "{\"0\":\"a\"}");
    assert_eq!(unfenced("{}").iter().collect::<String>(), "{}");
}

#[test]
fn batch_translations_reads_index_keys() {
    let r = batch_translations("```json\n{\"2\": \"deux\", \"x\": \"?\", \"0\": \"zero\"}\n```").ok().unwrap();
    assert_eq!(r, vec![(0, "zero".to_string()), (2, "deux".to_string())]);
    match batch_translations("not json") {
        Err(AiError::InvalidJson(c)) => assert_eq!(c, "not json"),
        _ => panic!("expected invalid JSON"),
    }
}

#[test]
fn results_and_filling() {
    let mut texts = vec![String::new(); 3];
    apply_results(&mut texts, vec![(0, "A".to_string()), (9, "ignored".to_string()), (0, "B".to_string())]);
    assert_eq!(texts, vec!["B".to_string(), String::new(), String::new()]);
    let blocks = vec![block(0, "r0"), block(1, "r1"), block(2, "r2")];
    let filled = fill_missing(texts, &blocks);
    assert_eq!(filled, vec!["B".to_string(), "r1".to_string(), "r2".to_string()]);
}

#[test]
fn translation_updates_need_one_text_per_block() {
    let blocks = vec![block(0, "a"), block(1, "b")];
    match translation_updates(&blocks, vec!["x".to_string()]) {
        Err(AiError::CountMismatch { expected, got }) => {
            assert_eq!(expected, 2);
            assert_eq!(got, 1);
        }
        _ => panic!("expected a count mismatch"),
    }
    let ups = translation_updates(&blocks, vec!["x".to_string(), "y".to_string()]).ok().unwrap();
    assert_eq!(ups.len(), 2);
    assert_eq!(ups[1].block_index, 1);
    assert_eq!(ups[1].trans_text, "y");
}

#[test]
fn title_blocks_have_index_minus_one() {
    let b = title_blocks(vec![(5, "T".to_string())]);
    assert_eq!(b[0].article_id, 5);
    assert_eq!(b[0].block_index, -1);
    assert_eq!(b[0].raw_text, "T");
}

#[test]
fn choices() {
    assert!(matches!(first_choice(&[]), Err(AiError::NoChoices)));
    assert_eq!(summary_of(&["  short  ".to_string()]).ok().unwrap(), "short");
}

#[test]
fn service_settings_and_retries() {
    let s = AiService::from_config(config("openai", Some("https://x/v1"), Some("k"), "{\"model\":\"m1\"}"));
    assert_eq!(s.model, "m1");
    assert_eq!(s.target_lang, "Chinese");
    assert_eq!(s.max_attempts(), 4);
    assert!(s.after_failed_attempt(1) == RetryStep::Retry(1000));
    assert!(s.after_failed_attempt(4) == RetryStep::GiveUp);
    assert!(matches!(s.translator(), Ok(Translator::OpenAi)));
    let mut c = config("google", None, None, "{}");
    c.retry_enabled = false;
    let g = AiService::from_config(c);
    assert_eq!(g.max_attempts(), 1);
    match g.translator() {
        Err(AiError::UnsupportedApiType(t)) => assert_eq!(t, "google"),
        _ => panic!("expected an unsupported type"),
    }
}

#[test]
fn batch_request_fields() {
    let s = AiService::from_config(config("openai", Some("https://x/v1"), Some("k"), "{\"max_tokens\":100,\"target_lang\":\"French\"}"));
    let blocks = vec![block(0, "a"), block(1, "b")];
    let q = s.openai_batch_request(&blocks, &[1]).ok().unwrap();
    assert_eq!(q.url, "https://x/v1/chat/completions");
    assert_eq!(q.max_tokens, 100);
    assert_eq!(q.user_content, "{\"1\":\"b\"}");
    assert!(q.system_prompt.contains("into French."));
    let no_base = AiService::from_config(config("openai", None, Some("k"), "{}"));
    assert!(matches!(no_base.openai_batch_request(&blocks, &[0]), Err(AiError::MissingBaseUrl)));
    let no_key = AiService::from_config(config("openai", Some("u"), None, "{}"));
    assert!(matches!(no_key.openai_batch_request(&blocks, &[0]), Err(AiError::MissingApiKey)));
}

#[test]
fn summary_request_fields() {
    let s = AiService::from_config(config("openai", None, Some("k"), "{}"));
    assert!(matches!(s.summary_request(&[]), Ok(None)));
    let q = s.summary_request(&["p1".to_string(), "p2".to_string()]).ok().unwrap().unwrap();
    assert_eq!(q.url, "https://api.openai.com/v1/chat/completions");
    assert_eq!(q.user_content, "p1\n\np2");
    assert_eq!(q.max_tokens, 1024);
    let d = AiService::from_config(config("deeplx", Some("u"), Some("k"), "{}"));
    assert!(matches!(d.summary_request(&["p".to_string()]), Err(AiError::SummaryNeedsOpenAi)));
}

#[test]
fn deeplx_request_fields() {
    let s = AiService::from_config(config("deeplx", Some("http://d:1188"), None, "{\"target_lang\":\"english\"}"));
    let q = s.deeplx_request(&[block(0, "x\ny")]).ok().unwrap();
    assert_eq!(q.url, "http://d:1188/translate");
    assert_eq!(q.text, "x y");
    assert_eq!(q.source_lang, "auto");
    assert_eq!(q.target_lang, "EN");
}
