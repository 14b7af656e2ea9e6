//! Models, generation settings and the requests made from them.

use crate::text::{spec_truncate, truncate};
use vstd::prelude::*;
use vstd::string::StringExecFns;

verus! {

/// The text-generation models a stage of the chain can be sent to.
#[allow(non_camel_case_types)]
#[derive(Debug, Clone, Copy, PartialEq, Eq, Structural)]
pub enum AiType {
    GPT4oMini,
    GPT4o,
    GPT3_5,
    GPT3_5_Instruct,
}

impl AiType {
    /// The identifier under which the provider knows the model.
    pub open spec fn spec_model_name(self) -> Seq<char> {
        match self {
            AiType::GPT3_5_Instruct => "gpt-3.5-turbo-instruct"@,
            AiType::GPT4oMini => "gpt-4o-mini"@,
            AiType::GPT4o => "gpt-4o"@,
            AiType::GPT3_5 => "gpt-3.5-turbo-0125"@,
        }
    }

    /// The identifier under which the provider knows the model.
    pub fn model_name(&self) -> (name: &'static str)
        ensures
            name@ == self.spec_model_name(),
    {
        match self {
            AiType::GPT3_5_Instruct => "gpt-3.5-turbo-instruct",
            AiType::GPT4oMini => "gpt-4o-mini",
            AiType::GPT4o => "gpt-4o",
            AiType::GPT3_5 => "gpt-3.5-turbo-0125",
        }
    }
}

/// How one stage asks for its text.
#[derive(Debug, Clone, Copy, PartialEq, Eq, Structural)]
pub struct AiSettings {
    pub model: AiType,
    /// The most tokens the reply may have.
    pub max_tokens: u32,
    /// Amount of generations to complete.
    pub n: u8,
    /// The sampling temperature, in thousandths.
    pub temperature_milli: u32,
}

impl AiSettings {
    /// Settings for the body of a poem: the longest reply, at the highest temperature.
    pub open spec fn spec_new_poem(model: AiType) -> AiSettings {
        AiSettings { model, max_tokens: 128, n: 1, temperature_milli: 969 }
    }

    /// Settings for a title: the shortest reply.
    pub open spec fn spec_new_title(model: AiType) -> AiSettings {
        AiSettings { model, max_tokens: 32, n: 1, temperature_milli: 769 }
    }

    /// Settings for the expanded prompt: a reply of moderate length.
    pub open spec fn spec_new_prompt(model: AiType) -> AiSettings {
        AiSettings { model, max_tokens: 64, n: 1, temperature_milli: 769 }
    }

    /// Settings for the body of a poem: the longest reply, at the highest temperature.
    #[verifier::when_used_as_spec(spec_new_poem)]
    pub fn new_poem(model: AiType) -> (settings: Self)
        ensures
            settings == Self::spec_new_poem(model),
    {
        Self { model, max_tokens: 128, n: 1, temperature_milli: 969 }
    }

    /// Settings for a title: the shortest reply.
    #[verifier::when_used_as_spec(spec_new_title)]
    pub fn new_title(model: AiType) -> (settings: Self)
        ensures
            settings == Self::spec_new_title(model),
    {
        Self { model, max_tokens: 32, n: 1, temperature_milli: 769 }
    }

    /// Settings for the expanded prompt: a reply of moderate length.
    #[verifier::when_used_as_spec(spec_new_prompt)]
    pub fn new_prompt(model: AiType) -> (settings: Self)
        ensures
            settings == Self::spec_new_prompt(model),
    {
        Self { model, max_tokens: 64, n: 1, temperature_milli: 769 }
    }
}

/// What a [`GenerationRequest`] holds.
pub ghost struct RequestView {
    pub model: Seq<char>,
    pub prompt: Seq<char>,
    pub max_tokens: u32,
    pub n: u8,
    pub temperature_milli: u32,
    pub stream: bool,
}

/// The request that asks for `prompt` to be completed under `settings`:
/// the model by its identifier, and never streamed.
pub open spec fn spec_request(prompt: Seq<char>, settings: AiSettings) -> RequestView {
    RequestView {
        model: settings.model.spec_model_name(),
        prompt,
        max_tokens: settings.max_tokens,
        n: settings.n,
        temperature_milli: settings.temperature_milli,
        stream: false,
    }
}

/// One completion request, as it goes to the provider. It is made once and
/// read from then on.
#[derive(Debug)]
pub struct GenerationRequest {
    model: String,
    prompt: String,
    max_tokens: u32,
    n: u8,
    temperature_milli: u32,
    stream: bool,
}

impl View for GenerationRequest {
    type V = RequestView;

    closed spec fn view(&self) -> RequestView {
        RequestView {
            model: self.model@,
            prompt: self.prompt@,
            max_tokens: self.max_tokens,
            n: self.n,
            temperature_milli: self.temperature_milli,
            stream: self.stream,
        }
    }
}

impl GenerationRequest {
    /// A request is never streamed.
    #[verifier::type_invariant]
    spec fn well_formed(self) -> bool {
        !self.stream
    }

    /// The request that asks for `prompt` to be completed under `settings`.
    pub fn new(prompt: &str, settings: AiSettings) -> (request: Self)
        ensures
            request@ == spec_request(prompt@, settings),
    {
        GenerationRequest {
            model: String::from_str(settings.model.model_name()),
            prompt: String::from_str(prompt),
            max_tokens: settings.max_tokens,
            n: settings.n,
            temperature_milli: settings.temperature_milli,
            stream: false,
        }
    }

    /// The identifier of the model the request goes to.
    pub fn model(&self) -> (model: &str)
        ensures
            model@ == self@.model,
    {
        self.model.as_str()
    }

    /// The text to be completed.
    pub fn prompt(&self) -> (prompt: &str)
        ensures
            prompt@ == self@.prompt,
    {
        self.prompt.as_str()
    }

    /// The most tokens the reply may have.
    pub fn max_tokens(&self) -> (max_tokens: u32)
        ensures
            max_tokens == self@.max_tokens,
    {
        self.max_tokens
    }

    /// How many completions are asked for.
    pub fn n(&self) -> (n: u8)
        ensures
            n == self@.n,
    {
        self.n
    }

    /// The sampling temperature, in thousandths.
    pub fn temperature_milli(&self) -> (temperature_milli: u32)
        ensures
            temperature_milli == self@.temperature_milli,
    {
        self.temperature_milli
    }

    /// Whether the reply is to come in pieces: it never is.
    pub fn stream(&self) -> (stream: bool)
        ensures
            stream == self@.stream,
            !stream,
    {
        proof {
            use_type_invariant(self);
        }
        self.stream
    }
}

/// The texts of `choices` one after the other.
pub open spec fn spec_concat_choices(choices: Seq<String>) -> Seq<char> {
    choices.map_values(|choice: String| choice@).flatten()
}

/// The reply to a request: the texts of all the choices that came back, joined
/// in the order they came in.
pub fn concat_choices(choices: &Vec<String>) -> (text: String)
    ensures
        text@ == spec_concat_choices(choices@),
{
    let mut text = String::new();
    let mut i: usize = 0;
    while i < choices.len()
        invariant
            i <= choices@.len(),
            text@ == spec_concat_choices(choices@.take(i as int)),
        decreases choices@.len() - i,
    {
        proof {
            let done = choices@.take(i as int);
            let views = |choice: String| choice@;
            assert(choices@.take(i + 1) =~= done.push(choices@[i as int]));
            done.lemma_push_map_commute(views, choices@[i as int]);
            done.map_values(views).lemma_flatten_push(choices@[i as int]@);
        }
        text.append(choices[i].as_str());
        i += 1;
    }
    assert(choices@.take(i as int) =~= choices@);
    text
}

/// The most characters the prompt of an image request may have.
pub const IMAGE_PROMPT_LIMIT: usize = 1000;

/// The sizes a picture can be asked for in, all of them square.
#[derive(Debug, Clone, Copy, PartialEq, Eq, Structural)]
pub enum ImageSize {
    S256x256,
    S512x512,
    S1024x1024,
}

/// What an [`ImageRequest`] holds.
pub ghost struct ImageRequestView {
    pub prompt: Seq<char>,
    pub n: u8,
    pub size: ImageSize,
    pub as_url: bool,
    pub user: Seq<char>,
}

/// The request for `n` pictures of `size` to the first thousand characters of
/// `prompt`: the pictures come back as references to fetch them by, and the
/// request is signed with the name of this program.
pub open spec fn spec_image_request(prompt: Seq<char>, n: u8, size: ImageSize) -> ImageRequestView {
    ImageRequestView {
        prompt: spec_truncate(prompt, IMAGE_PROMPT_LIMIT as nat),
        n,
        size,
        as_url: true,
        user: "poem-gen"@,
    }
}

/// One image request, as it goes to the provider.
#[derive(Debug)]
pub struct ImageRequest {
    prompt: String,
    n: u8,
    size: ImageSize,
    as_url: bool,
    user: String,
}

impl View for ImageRequest {
    type V = ImageRequestView;

    closed spec fn view(&self) -> ImageRequestView {
        ImageRequestView {
            prompt: self.prompt@,
            n: self.n,
            size: self.size,
            as_url: self.as_url,
            user: self.user@,
        }
    }
}

impl ImageRequest {
    /// The prompt keeps to the limit, the pictures come back as references,
    /// and the request is signed with the name of this program.
    #[verifier::type_invariant]
    spec fn well_formed(self) -> bool {
        &&& self.prompt@.len() <= IMAGE_PROMPT_LIMIT
        &&& self.as_url
        &&& self.user@ == "poem-gen"@
    }

    /// The request for `n` pictures of `size` to the first thousand
    /// characters of `prompt`.
    pub fn new(prompt: &str, n: u8, size: ImageSize) -> (request: Self)
        ensures
            request@ == spec_image_request(prompt@, n, size),
            request@.prompt.len() <= IMAGE_PROMPT_LIMIT,
    {
        ImageRequest {
            prompt: String::from_str(truncate(prompt, IMAGE_PROMPT_LIMIT)),
            n,
            size,
            as_url: true,
            user: String::from_str("poem-gen"),
        }
    }

    /// What the pictures are to show, in no more than a thousand characters.
    pub fn prompt(&self) -> (prompt: &str)
        ensures
            prompt@ == self@.prompt,
            prompt@.len() <= IMAGE_PROMPT_LIMIT,
    {
        proof {
            use_type_invariant(self);
        }
        self.prompt.as_str()
    }

    /// How many pictures are asked for.
    pub fn n(&self) -> (n: u8)
        ensures
            n == self@.n,
    {
        self.n
    }

    /// The size of each picture.
    pub fn size(&self) -> (size: ImageSize)
        ensures
            size == self@.size,
    {
        self.size
    }

    /// Whether the pictures come back as references to fetch them by: they
    /// always do.
    pub fn as_url(&self) -> (as_url: bool)
        ensures
            as_url == self@.as_url,
            as_url,
    {
        proof {
            use_type_invariant(self);
        }
        self.as_url
    }

    /// The name the request is signed with.
    pub fn user(&self) -> (user: &str)
        ensures
            user@ == self@.user,
            user@ == "poem-gen"@,
    {
        proof {
            use_type_invariant(self);
        }
        self.user.as_str()
    }
}

} // verus!
