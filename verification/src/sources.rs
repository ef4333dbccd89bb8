//! The curated catalog of downloadable models, used only when no local model
//! was detected. Pure data: the only logic is filtering by size class and
//! rendering size and provider tags for display.

use vstd::prelude::*;
use vstd::string::*;

verus! {

/// One downloadable model with its metadata.
#[derive(Clone, Debug)]
pub struct ModelSource {
    pub name: String,
    pub provider: ModelSourceProvider,
    pub description: String,
    pub url: String,
    pub size: ModelSize,
    pub format: ModelFormat,
}

/// Where a catalog entry can be fetched from.
#[derive(Clone, Copy, PartialEq, Eq, Structural, Debug)]
pub enum ModelSourceProvider {
    HuggingFace,
    Ollama,
    LMStudio,
    DirectDownload,
}

/// The size class of a catalog entry.
#[derive(Clone, Copy, PartialEq, Eq, Structural, Debug)]
pub enum ModelSize {
    Tiny,
    Small,
    Medium,
    Large,
    XLarge,
}

/// The weight format of a catalog entry.
#[derive(Clone, Debug)]
pub enum ModelFormat {
    GGUF,
    Safetensors,
    Pytorch,
    ONNX,
    Other(String),
}

impl ModelFormat {
    /// An equal copy of the format.
    pub fn duplicate(&self) -> (r: Self)
        ensures
            r == *self,
    {
        match self {
            ModelFormat::GGUF => ModelFormat::GGUF,
            ModelFormat::Safetensors => ModelFormat::Safetensors,
            ModelFormat::Pytorch => ModelFormat::Pytorch,
            ModelFormat::ONNX => ModelFormat::ONNX,
            ModelFormat::Other(s) => ModelFormat::Other(s.clone()),
        }
    }
}

impl ModelSource {
    /// An equal copy of the entry.
    pub fn duplicate(&self) -> (r: Self)
        ensures
            r == *self,
    {
        ModelSource {
            name: self.name.clone(),
            provider: self.provider,
            description: self.description.clone(),
            url: self.url.clone(),
            size: self.size,
            format: self.format.duplicate(),
        }
    }
}

/// The curated catalog.
pub struct ModelSources;

/// Builds one catalog entry from Hugging Face with GGUF weights.
fn hf_gguf_entry(name: &str, description: &str, url: &str, size: ModelSize) -> (r: ModelSource)
    ensures
        r.name@ == name@,
        r.description@ == description@,
        r.url@ == url@,
        r.size == size,
        r.provider == ModelSourceProvider::HuggingFace,
        r.format is GGUF,
{
    ModelSource {
        name: String::from_str(name),
        provider: ModelSourceProvider::HuggingFace,
        description: String::from_str(description),
        url: String::from_str(url),
        size,
        format: ModelFormat::GGUF,
    }
}

impl ModelSources {
    /// The fixed list of recommended models, smallest first within each
    /// grouping: two small and fast, two medium, two large.
    pub fn get_recommended_models() -> (r: Vec<ModelSource>)
        ensures
            r@.len() == 6,
            r@[0].name@ == "Phi-3-mini-4k-instruct"@,
            r@[0].size == ModelSize::Small,
            r@[0].url@ == "https://huggingface.co/microsoft/Phi-3-mini-4k-instruct-gguf"@,
            r@[1].name@ == "Qwen2-0.5B-Instruct"@,
            r@[1].size == ModelSize::Tiny,
            r@[1].url@ == "https://huggingface.co/Qwen/Qwen2-0.5B-Instruct-GGUF"@,
            r@[2].name@ == "Llama-3.2-3B-Instruct"@,
            r@[2].size == ModelSize::Medium,
            r@[2].url@ == "https://huggingface.co/bartowski/Llama-3.2-3B-Instruct-GGUF"@,
            r@[3].name@ == "Mistral-7B-Instruct-v0.3"@,
            r@[3].size == ModelSize::Medium,
            r@[3].url@ == "https://huggingface.co/TheBloke/Mistral-7B-Instruct-v0.3-GGUF"@,
            r@[4].name@ == "Llama-3.1-8B-Instruct"@,
            r@[4].size == ModelSize::Large,
            r@[4].url@ == "https://huggingface.co/bartowski/Llama-3.1-8B-Instruct-GGUF"@,
            r@[5].name@ == "Qwen2.5-7B-Instruct"@,
            r@[5].size == ModelSize::Large,
            r@[5].url@ == "https://huggingface.co/Qwen/Qwen2.5-7B-Instruct-GGUF"@,
            forall|i: int|
                0 <= i < 6 ==> (#[trigger] r@[i].provider) == ModelSourceProvider::HuggingFace,
            forall|i: int| 0 <= i < 6 ==> (#[trigger] r@[i].format) is GGUF,
    {
        let mut v: Vec<ModelSource> = Vec::new();
        v.push(
            hf_gguf_entry(
                "Phi-3-mini-4k-instruct",
                "Microsoft Phi-3 Mini - Fast, efficient, 3.8B parameters",
                "https://huggingface.co/microsoft/Phi-3-mini-4k-instruct-gguf",
                ModelSize::Small,
            ),
        );
        v.push(
            hf_gguf_entry(
                "Qwen2-0.5B-Instruct",
                "Qwen2 0.5B - Very small, fast inference",
                "https://huggingface.co/Qwen/Qwen2-0.5B-Instruct-GGUF",
                ModelSize::Tiny,
            ),
        );
        v.push(
            hf_gguf_entry(
                "Llama-3.2-3B-Instruct",
                "Meta Llama 3.2 3B - Balanced performance and quality",
                "https://huggingface.co/bartowski/Llama-3.2-3B-Instruct-GGUF",
                ModelSize::Medium,
            ),
        );
        v.push(
            hf_gguf_entry(
                "Mistral-7B-Instruct-v0.3",
                "Mistral 7B Instruct - High quality, versatile",
                "https://huggingface.co/TheBloke/Mistral-7B-Instruct-v0.3-GGUF",
                ModelSize::Medium,
            ),
        );
        v.push(
            hf_gguf_entry(
                "Llama-3.1-8B-Instruct",
                "Meta Llama 3.1 8B - High quality, larger context",
                "https://huggingface.co/bartowski/Llama-3.1-8B-Instruct-GGUF",
                ModelSize::Large,
            ),
        );
        v.push(
            hf_gguf_entry(
                "Qwen2.5-7B-Instruct",
                "Qwen2.5 7B - Excellent quality, multilingual",
                "https://huggingface.co/Qwen/Qwen2.5-7B-Instruct-GGUF",
                ModelSize::Large,
            ),
        );
        v
    }

    /// The catalog entries of exactly the given size class, in catalog order.
    pub fn get_by_size(size: &ModelSize) -> (r: Vec<ModelSource>)
        ensures
            forall|j: int| 0 <= j < r@.len() ==> (#[trigger] r@[j].size) == *size,
            match *size {
                ModelSize::Tiny => r@.len() == 1 && r@[0].name@ == "Qwen2-0.5B-Instruct"@,
                ModelSize::Small => r@.len() == 1 && r@[0].name@ == "Phi-3-mini-4k-instruct"@,
                ModelSize::Medium => r@.len() == 2 && r@[0].name@ == "Llama-3.2-3B-Instruct"@
                    && r@[1].name@ == "Mistral-7B-Instruct-v0.3"@,
                ModelSize::Large => r@.len() == 2 && r@[0].name@ == "Llama-3.1-8B-Instruct"@
                    && r@[1].name@ == "Qwen2.5-7B-Instruct"@,
                ModelSize::XLarge => r@.len() == 0,
            },
    {
        let all = Self::get_recommended_models();
        let mut out: Vec<ModelSource> = Vec::new();
        if all[0].size == *size {
            out.push(all[0].duplicate());
        }
        if all[1].size == *size {
            out.push(all[1].duplicate());
        }
        if all[2].size == *size {
            out.push(all[2].duplicate());
        }
        if all[3].size == *size {
            out.push(all[3].duplicate());
        }
        if all[4].size == *size {
            out.push(all[4].duplicate());
        }
        if all[5].size == *size {
            out.push(all[5].duplicate());
        }
        out
    }

    /// The display range for a size class.
    pub fn format_size(size: &ModelSize) -> (r: String)
        ensures
            r@ == match *size {
                ModelSize::Tiny => "< 1GB"@,
                ModelSize::Small => "1-3GB"@,
                ModelSize::Medium => "3-7GB"@,
                ModelSize::Large => "7-15GB"@,
                ModelSize::XLarge => "15GB+"@,
            },
    {
        match size {
            ModelSize::Tiny => String::from_str("< 1GB"),
            ModelSize::Small => String::from_str("1-3GB"),
            ModelSize::Medium => String::from_str("3-7GB"),
            ModelSize::Large => String::from_str("7-15GB"),
            ModelSize::XLarge => String::from_str("15GB+"),
        }
    }

    /// The display name for a provider.
    pub fn format_provider(provider: &ModelSourceProvider) -> (r: String)
        ensures
            r@ == match *provider {
                ModelSourceProvider::HuggingFace => "Hugging Face"@,
                ModelSourceProvider::Ollama => "Ollama"@,
                ModelSourceProvider::LMStudio => "LM Studio"@,
                ModelSourceProvider::DirectDownload => "Direct Download"@,
            },
    {
        match provider {
            ModelSourceProvider::HuggingFace => String::from_str("Hugging Face"),
            ModelSourceProvider::Ollama => String::from_str("Ollama"),
            ModelSourceProvider::LMStudio => String::from_str("LM Studio"),
            ModelSourceProvider::DirectDownload => String::from_str("Direct Download"),
        }
    }
}

} // verus!
