//! The launcher's settings and their defaults.

use vstd::prelude::*;

verus! {

/// Settings of the game assistant.
#[derive(Debug)]
pub struct AssistantConfig {
    pub enabled: bool,
    /// `ollama` or `openai`.
    pub llm_provider: String,
    pub ollama_endpoint: String,
    pub ollama_model: String,
    pub openai_api_key: Option<String>,
    pub openai_endpoint: String,
    pub openai_model: String,
    pub system_prompt: String,
    pub response_language: String,
    pub tts_enabled: bool,
    /// `disabled`, `piper` or `edge`.
    pub tts_provider: String,
}

impl Default for AssistantConfig {
    fn default() -> (config: Self)
        ensures
            config.enabled,
            config.llm_provider@ == "ollama"@,
            config.ollama_endpoint@ == "http://localhost:11434"@,
            config.ollama_model@ == "llama3"@,
            config.openai_api_key is None,
            config.openai_endpoint@ == "https://api.openai.com/v1"@,
            config.openai_model@ == "gpt-3.5-turbo"@,
            config.system_prompt@
                == "You are a helpful Minecraft expert assistant. You help players with game issues, mod installation, performance optimization, and gameplay tips. Analyze any game logs provided and give concise, actionable advice."@,
            config.response_language@ == "auto"@,
            !config.tts_enabled,
            config.tts_provider@ == "disabled"@,
    {
        Self {
            enabled: true,
            llm_provider: "ollama".to_string(),
            ollama_endpoint: "http://localhost:11434".to_string(),
            ollama_model: "llama3".to_string(),
            openai_api_key: None,
            openai_endpoint: "https://api.openai.com/v1".to_string(),
            openai_model: "gpt-3.5-turbo".to_string(),
            system_prompt: "You are a helpful Minecraft expert assistant. You help players with game issues, mod installation, performance optimization, and gameplay tips. Analyze any game logs provided and give concise, actionable advice.".to_string(),
            response_language: "auto".to_string(),
            tts_enabled: false,
            tts_provider: "disabled".to_string(),
        }
    }
}

/// The features that conditional launch arguments may ask for.
#[derive(Debug)]
pub struct FeatureFlags {
    /// Demo user: enables the arguments of the demo mode.
    pub demo_user: bool,
    /// Quick Play: enables the quick-play arguments.
    pub quick_play_enabled: bool,
    /// The world to open in single-player quick play.
    pub quick_play_path: Option<String>,
    /// Whether quick play opens a single-player world.
    pub quick_play_singleplayer: bool,
    /// The server to join in multi-player quick play.
    pub quick_play_multiplayer_server: Option<String>,
}

impl Default for FeatureFlags {
    fn default() -> (flags: Self)
        ensures
            !flags.demo_user,
            !flags.quick_play_enabled,
            flags.quick_play_path is None,
            flags.quick_play_singleplayer,
            flags.quick_play_multiplayer_server is None,
    {
        Self {
            demo_user: false,
            quick_play_enabled: false,
            quick_play_path: None,
            quick_play_singleplayer: true,
            quick_play_multiplayer_server: None,
        }
    }
}

/// The launcher's settings.
#[derive(Debug)]
pub struct LauncherConfig {
    /// Least memory of the game, in MB.
    pub min_memory: u32,
    /// Most memory of the game, in MB.
    pub max_memory: u32,
    pub java_path: String,
    pub width: u32,
    pub height: u32,
    /// Files fetched at once in a batch (1 to 128).
    pub download_threads: u32,
    pub custom_background_path: Option<String>,
    pub enable_gpu_acceleration: bool,
    pub enable_visual_effects: bool,
    pub active_effect: String,
    pub theme: String,
    /// `paste.rs` or `pastebin.com`.
    pub log_upload_service: String,
    pub pastebin_api_key: Option<String>,
    pub assistant: AssistantConfig,
    /// Whether versions, libraries and assets are shared by all instances.
    pub use_shared_caches: bool,
    /// Whether the per-instance caches are kept as they are.
    pub keep_legacy_per_instance_storage: bool,
    pub feature_flags: FeatureFlags,
}

impl Default for LauncherConfig {
    fn default() -> (config: Self)
        ensures
            config.min_memory == 1024,
            config.max_memory == 2048,
            config.java_path@ == "java"@,
            config.width == 854,
            config.height == 480,
            config.download_threads == 32,
            config.custom_background_path is None,
            !config.enable_gpu_acceleration,
            config.enable_visual_effects,
            config.active_effect@ == "constellation"@,
            config.theme@ == "dark"@,
            config.log_upload_service@ == "paste.rs"@,
            config.pastebin_api_key is None,
            !config.use_shared_caches,
            config.keep_legacy_per_instance_storage,
    {
        Self {
            min_memory: 1024,
            max_memory: 2048,
            java_path: "java".to_string(),
            width: 854,
            height: 480,
            download_threads: 32,
            custom_background_path: None,
            enable_gpu_acceleration: false,
            enable_visual_effects: true,
            active_effect: "constellation".to_string(),
            theme: "dark".to_string(),
            log_upload_service: "paste.rs".to_string(),
            pastebin_api_key: None,
            assistant: AssistantConfig::default(),
            use_shared_caches: false,
            keep_legacy_per_instance_storage: true,
            feature_flags: FeatureFlags::default(),
        }
    }
}

/// The settings in memory and the file they are kept in.
#[derive(Debug)]
pub struct ConfigState {
    pub config: LauncherConfig,
    pub file_path: String,
}

} // verus!
