//! Service settings: which OpenAI-compatible endpoint and models the OCR,
//! translation and speech collaborators use, the language pair, and the two
//! global hotkeys. Persistence and environment overrides live at the
//! embedding boundary; here are the values, their constructors and their
//! defaults.

use vstd::prelude::*;

verus! {

/// The configuration of one service: the model it calls and a free-form
/// JSON string of extra request parameters (merged into request bodies by
/// the HTTP boundary).
pub struct ServiceConfig {
    pub model: String,
    pub extra: String,
}

impl ServiceConfig {
    /// A service configuration for the given model, with no extra request
    /// parameters.
    pub fn with_model(model: &str) -> (r: Self)
        ensures
            r.model@ == model@,
            r.extra@ == Seq::<char>::empty(),
    {
        ServiceConfig { model: model.to_owned(), extra: String::new() }
    }
}

impl Clone for ServiceConfig {
    fn clone(&self) -> (r: Self)
        ensures
            r == *self,
    {
        ServiceConfig { model: self.model.clone(), extra: self.extra.clone() }
    }
}

/// All user-facing settings.
pub struct Settings {
    pub base_url: String,
    pub api_key: String,
    pub translation: ServiceConfig,
    pub ocr: ServiceConfig,
    pub tts: ServiceConfig,
    pub source_language: String,
    pub target_language: String,
    pub hotkey_screenshot: String,
    pub hotkey_region: String,
}

impl Clone for Settings {
    fn clone(&self) -> (r: Self)
        ensures
            r == *self,
    {
        Settings {
            base_url: self.base_url.clone(),
            api_key: self.api_key.clone(),
            translation: self.translation.clone(),
            ocr: self.ocr.clone(),
            tts: self.tts.clone(),
            source_language: self.source_language.clone(),
            target_language: self.target_language.clone(),
            hotkey_screenshot: self.hotkey_screenshot.clone(),
            hotkey_region: self.hotkey_region.clone(),
        }
    }
}

impl Default for Settings {
    /// The built-in defaults: the stock endpoint with no key, the stock
    /// model per service, automatic source-language detection targeting
    /// Simplified Chinese, and the two standard hotkeys. The embedding layer
    /// may override the endpoint and key from its environment before first
    /// use.
    fn default() -> (r: Self)
        ensures
            r.base_url@ == "https://api.siliconflow.cn"@,
            r.api_key@ == Seq::<char>::empty(),
            r.translation.model@ == "Qwen/Qwen2.5-7B-Instruct"@,
            r.translation.extra@ == Seq::<char>::empty(),
            r.ocr.model@ == "PaddlePaddle/PaddleOCR-VL-1.5"@,
            r.ocr.extra@ == Seq::<char>::empty(),
            r.tts.model@ == "IndexTeam/IndexTTS-2"@,
            r.tts.extra@ == Seq::<char>::empty(),
            r.source_language@ == "auto"@,
            r.target_language@ == "zh-CN"@,
            r.hotkey_screenshot@ == "Alt+A"@,
            r.hotkey_region@ == "Alt+S"@,
    {
        Settings {
            base_url: "https://api.siliconflow.cn".to_owned(),
            api_key: String::new(),
            translation: ServiceConfig::with_model("Qwen/Qwen2.5-7B-Instruct"),
            ocr: ServiceConfig::with_model("PaddlePaddle/PaddleOCR-VL-1.5"),
            tts: ServiceConfig::with_model("IndexTeam/IndexTTS-2"),
            source_language: "auto".to_owned(),
            target_language: "zh-CN".to_owned(),
            hotkey_screenshot: "Alt+A".to_owned(),
            hotkey_region: "Alt+S".to_owned(),
        }
    }
}

} // verus!
