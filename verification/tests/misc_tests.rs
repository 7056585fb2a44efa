use dropout_core::api::{sort_api_infos, ApiInfo, MacroArgs};
use dropout_core::text::precedes_or_equals;
use dropout_core::assistant::{
    details_text, generation_stats, is_chat_model, openai_key_is_set, provider_of,
    system_prompt, unknown_provider_message, with_system_prompt, GameAssistant, GenerationStats,
    LlmProvider, Message, OllamaModelDetails, OllamaStreamResponse,
};
use dropout_core::auth::{generate_offline_uuid, AccountState, MsRefreshTokenState};
use dropout_core::config::{AssistantConfig, FeatureFlags, LauncherConfig};
use dropout_core::launcher::{Config, Launcher};

#[test]
fn offline_identifiers_are_name_based() {
    let steve = generate_offline_uuid("Steve");
    assert_eq!(steve.len(), 36);
    assert_eq!(steve, generate_offline_uuid("Steve"));
    assert_ne!(steve, generate_offline_uuid("steve"));
    assert_ne!(steve, "Steve");
    // version 3, RFC variant
    assert_eq!(steve.as_bytes()[14], b'3');
    assert!(matches!(steve.as_bytes()[19], b'8' | b'9' | b'a' | b'b'));
    assert_eq!(generate_offline_uuid(""), "596b79dc-00dd-3991-a72f-d3696c38c64f");
}

#[test]
fn states_start_empty() {
    assert!(AccountState::new().active_account.is_none());
    assert!(MsRefreshTokenState::new().token.is_none());
    assert!(MsRefreshTokenState::default().token.is_none());
    let args = MacroArgs::default();
    assert!(args.export_to.is_none() && args.export_to_path.is_none() && args.import_from.is_none());
}

#[test]
fn launcher_settings() {
    let config = Config::new("玩家", (1920, 1080));
    assert_eq!(config.username, "玩家");
    assert_eq!(config.resolution, (1920, 1080));
    let launcher = Launcher::new(config);
    assert_eq!(launcher.config.username, "玩家");
}

#[test]
fn default_settings() {
    let c = LauncherConfig::default();
    assert_eq!((c.min_memory, c.max_memory), (1024, 2048));
    assert_eq!(c.java_path, "java");
    assert_eq!((c.width, c.height), (854, 480));
    assert_eq!(c.download_threads, 32);
    assert_eq!(c.active_effect, "constellation");
    assert_eq!(c.theme, "dark");
    assert_eq!(c.log_upload_service, "paste.rs");
    assert!(c.enable_visual_effects && !c.enable_gpu_acceleration);
    assert!(!c.use_shared_caches && c.keep_legacy_per_instance_storage);
    assert_eq!(c.assistant.llm_provider, "ollama");
    assert_eq!(c.assistant.ollama_endpoint, "http://localhost:11434");
    assert_eq!(c.assistant.openai_model, "gpt-3.5-turbo");
    assert_eq!(c.assistant.response_language, "auto");
    assert_eq!(c.assistant.tts_provider, "disabled");
    assert!(c.assistant.enabled && !c.assistant.tts_enabled);
    let f = FeatureFlags::default();
    assert!(!f.demo_user && !f.quick_play_enabled && f.quick_play_singleplayer);
    assert!(f.quick_play_path.is_none() && f.quick_play_multiplayer_server.is_none());
}

#[test]
fn log_window_keeps_the_last_lines() {
    let mut assistant = GameAssistant::new();
    assert_eq!(assistant.max_log_lines, 100);
    assert_eq!(assistant.get_log_context(), "");
    assistant.add_log("one".into());
    assert_eq!(assistant.get_log_context(), "one");
    assistant.add_log("two".into());
    assert_eq!(assistant.get_log_context(), "one\ntwo");
    assistant.max_log_lines = 3;
    assistant.add_log("three".into());
    assistant.add_log("four".into());
    assert_eq!(assistant.get_log_context(), "two\nthree\nfour");
    for i in 0..200 {
        assistant.add_log(format!("l{}", i));
    }
    assert_eq!(assistant.log_buffer.len(), 3);
    assert_eq!(assistant.get_log_context(), "l197\nl198\nl199");
}

#[test]
fn system_prompts() {
    let mut config = AssistantConfig::default();
    config.system_prompt = "P".into();
    assert_eq!(system_prompt(&config, ""), "P");
    assert_eq!(system_prompt(&config, "log"), "P\n\nRecent game logs:\n```\nlog\n```");
    config.response_language = "中文".into();
    assert_eq!(
        system_prompt(&config, ""),
        "P\n\nIMPORTANT: Respond in 中文. Do not include Pinyin or English translations unless explicitly requested."
    );
    assert_eq!(
        system_prompt(&config, "log"),
        "P\n\nIMPORTANT: Respond in 中文. Do not include Pinyin or English translations unless explicitly requested.\n\nRecent game logs:\n```\nlog\n```"
    );
    let user = || Message { role: "user".into(), content: "hi".into() };
    let out = with_system_prompt(vec![user()], &config, "");
    assert_eq!(out.len(), 2);
    assert_eq!(out[0].role, "system");
    assert!(out[0].content.starts_with("P\n\nIMPORTANT"));
    assert_eq!(out[1].content, "hi");
    let own = vec![user(), Message { role: "system".into(), content: "mine".into() }];
    let out = with_system_prompt(own, &config, "log");
    assert_eq!(out.len(), 2);
    assert_eq!(out[1].content, "mine");
}

#[test]
fn providers_and_models() {
    assert_eq!(provider_of("ollama"), LlmProvider::Ollama);
    assert_eq!(provider_of("openai"), LlmProvider::OpenAi);
    assert_eq!(provider_of("OpenAI"), LlmProvider::Unknown);
    assert_eq!(unknown_provider_message("x"), "Unknown LLM provider: x");
    let mut config = AssistantConfig::default();
    assert!(!openai_key_is_set(&config));
    config.openai_api_key = Some(String::new());
    assert!(!openai_key_is_set(&config));
    config.openai_api_key = Some("SECRET-REDACTED".into());
    assert!(openai_key_is_set(&config));
    assert!(is_chat_model("gpt-4o"));
    assert!(is_chat_model("o1-mini"));
    assert!(is_chat_model("text-turbo-x"));
    assert!(!is_chat_model("whisper-1"));
    assert!(!is_chat_model("GPT-4"));
    assert!(!is_chat_model(""));
    let d = |f: Option<&str>, p: Option<&str>, q: Option<&str>| OllamaModelDetails {
        format: Some("gguf".into()),
        family: f.map(String::from),
        parameter_size: p.map(String::from),
        quantization_level: q.map(String::from),
    };
    assert_eq!(details_text(&d(Some("llama"), Some("8B"), Some("Q4_0"))), "llama / 8B / Q4_0");
    assert_eq!(details_text(&d(None, Some("8B"), Some("Q4_0"))), "8B / Q4_0");
    assert_eq!(details_text(&d(Some("llama"), None, None)), "llama");
    assert_eq!(details_text(&d(None, None, None)), "");
}

#[test]
fn stream_figures_need_all_six() {
    let mut r = OllamaStreamResponse {
        model: None,
        created_at: None,
        message: None,
        done: true,
        total_duration: Some(1),
        load_duration: Some(2),
        prompt_eval_count: Some(3),
        prompt_eval_duration: Some(4),
        eval_count: Some(5),
        eval_duration: Some(6),
    };
    assert_eq!(
        generation_stats(&r),
        Some(GenerationStats {
            total_duration: 1,
            load_duration: 2,
            prompt_eval_count: 3,
            prompt_eval_duration: 4,
            eval_count: 5,
            eval_duration: 6
        })
    );
    r.eval_count = None;
    assert_eq!(generation_stats(&r), None);
}

fn api(fn_name: &'static str, ts_fn_name: &'static str) -> ApiInfo {
    ApiInfo {
        fn_name,
        ts_fn_name,
        param_names: &[],
        param_defs: &[],
        return_ts_promise: "Promise<void>",
        import_types: &[],
        import_from: None,
    }
}

#[test]
fn commands_are_sorted_by_name() {
    let mut infos = vec![
        api("start_game", "a"),
        api("get_versions", "b"),
        api("login_offline", "c"),
        api("get_versions", "d"),
        api("getVersions", "e"),
        api("", "f"),
        api("get", "g"),
    ];
    sort_api_infos(&mut infos);
    assert_eq!(
        infos.iter().map(|i| (i.fn_name, i.ts_fn_name)).collect::<Vec<_>>(),
        vec![
            ("", "f"),
            ("get", "g"),
            ("getVersions", "e"),
            ("get_versions", "b"),
            ("get_versions", "d"),
            ("login_offline", "c"),
            ("start_game", "a")
        ]
    );
    let mut none: Vec<ApiInfo> = vec![];
    sort_api_infos(&mut none);
    assert!(none.is_empty());
}

#[test]
fn dictionary_order_is_that_of_strings() {
    let words = ["", "a", "ab", "abc", "b", "B", "é", "z", "ab ", "aB", "日本", "\u{10000}"];
    for x in words {
        for y in words {
            let xs: Vec<char> = x.chars().collect();
            let ys: Vec<char> = y.chars().collect();
            assert_eq!(precedes_or_equals(&xs, &ys), x <= y, "{:?} {:?}", x, y);
        }
    }
}
