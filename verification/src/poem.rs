//! Poem forms, the finished poem, and the chain of requests that makes one.

use crate::ai::{
    spec_request, AiSettings, AiType, GenerationRequest, RequestView, IMAGE_PROMPT_LIMIT,
};
use crate::text::{
    is_blank, lemma_blank_is_all_whitespace, repeat, spec_is_blank, spec_is_whitespace, spec_repeat,
    spec_trim, spec_truncate, trim, truncate,
};
use vstd::prelude::*;
use vstd::string::StringExecFns;

verus! {

/// The forms a poem can be asked for in.
#[derive(Debug, Copy, Clone, PartialEq, Eq, Structural)]
pub enum PoemType {
    Sonnet,
    Villanelle,
    Haiku,
    Ekphrastic,
    Concrete,
    Elegy,
    Epigram,
    Limerick,
    Ballad,
    Epitaph,
    DrSeuss,
    Ode,
    FreeVerse,
}

/// How many forms a random choice is made among.
pub const ACTIVE_FORMS: u8 = 9;

impl PoemType {
    /// The name by which a request calls the form.
    pub open spec fn spec_label(self) -> Seq<char> {
        match self {
            PoemType::Sonnet => "Sonnet"@,
            PoemType::Villanelle => "Villanelle Poem"@,
            PoemType::Haiku => "Haiku"@,
            PoemType::Ekphrastic => "Ekphrastic Poem"@,
            PoemType::Concrete => "Concrete Poem"@,
            PoemType::Elegy => "Elegy"@,
            PoemType::Epigram => "Epigram"@,
            PoemType::Limerick => "Limerick"@,
            PoemType::Ballad => "Ballad"@,
            PoemType::Epitaph => "Epitaph"@,
            PoemType::DrSeuss => "Dr. Seuss Poem"@,
            PoemType::Ode => "Ode"@,
            PoemType::FreeVerse => "Free Verse Poem"@,
        }
    }

    /// The name by which a request calls the form.
    pub fn label(&self) -> (label: &'static str)
        ensures
            label@ == self.spec_label(),
    {
        match self {
            PoemType::Sonnet => "Sonnet",
            PoemType::Villanelle => "Villanelle Poem",
            PoemType::Haiku => "Haiku",
            PoemType::Ekphrastic => "Ekphrastic Poem",
            PoemType::Concrete => "Concrete Poem",
            PoemType::Elegy => "Elegy",
            PoemType::Epigram => "Epigram",
            PoemType::Limerick => "Limerick",
            PoemType::Ballad => "Ballad",
            PoemType::Epitaph => "Epitaph",
            PoemType::DrSeuss => "Dr. Seuss Poem",
            PoemType::Ode => "Ode",
            PoemType::FreeVerse => "Free Verse Poem",
        }
    }

    /// The forms a random choice is made among, in the order of their
    /// selectors. The other forms can only be asked for by name.
    pub open spec fn active() -> Seq<PoemType> {
        seq![
            PoemType::Sonnet,
            PoemType::Villanelle,
            PoemType::Ekphrastic,
            PoemType::Concrete,
            PoemType::Elegy,
            PoemType::Epigram,
            PoemType::DrSeuss,
            PoemType::Ode,
            PoemType::FreeVerse,
        ]
    }

    /// Whether a random choice can fall on the form.
    pub open spec fn is_active(self) -> bool {
        Self::active().contains(self)
    }

    /// The form that `selector` stands for: the selectors go round the active
    /// forms, so that each form has as many of them as any other, or one more.
    pub open spec fn spec_from_selector(selector: u8) -> PoemType {
        Self::active()[selector as int % ACTIVE_FORMS as int]
    }

    /// The active form that `selector` stands for.
    pub fn from_selector(selector: u8) -> (form: PoemType)
        ensures
            form == Self::spec_from_selector(selector),
            form.is_active(),
    {
        let index: u8 = selector % ACTIVE_FORMS;
        assert(Self::active().len() == 9);
        assert(Self::active()[index as int].is_active());
        if index == 0 {
            PoemType::Sonnet
        } else if index == 1 {
            PoemType::Villanelle
        } else if index == 2 {
            PoemType::Ekphrastic
        } else if index == 3 {
            PoemType::Concrete
        } else if index == 4 {
            PoemType::Elegy
        } else if index == 5 {
            PoemType::Epigram
        } else if index == 6 {
            PoemType::DrSeuss
        } else if index == 7 {
            PoemType::Ode
        } else {
            PoemType::FreeVerse
        }
    }

    /// One of the active forms, each as likely as the others as far as 256
    /// selectors can be dealt out to 9 forms.
    pub fn random() -> (form: PoemType)
        ensures
            form.is_active(),
            exists|selector: u8| form == Self::spec_from_selector(selector),
    {
        let selector = random_selector();
        Self::from_selector(selector)
    }
}

/// A byte drawn by `rand::random`, which takes it from the generator that
/// `rand` keeps for the running thread and seeds from the operating system.
/// Nothing is claimed of its value: any byte may come, and two calls need not
/// agree.
#[verifier::external_body]
fn random_selector() -> (selector: u8) {
    rand::random()
}

/// How many seed prompts there are to fall back on.
pub const SEED_TEMPLATES: u8 = 4;

/// The seed prompts that stand in for one the caller did not give, in the
/// order of their selectors.
pub open spec fn seed_templates() -> Seq<Seq<char>> {
    seq![
        "for a poem about robots"@,
        "for poem about students engineering building a robot for team-based competitive game"@,
        "about robots playing competitive games together"@,
        "pertaining to the themes education, science, robotics and friendly competition"@,
    ]
}

/// The seed prompt that `selector` stands for: the selectors go round the
/// templates, and each template has 64 of the 256.
pub open spec fn spec_poem_prompt(selector: u8) -> Seq<char> {
    seed_templates()[selector as int % SEED_TEMPLATES as int]
}

/// The seed template that `selector` stands for.
pub fn poem_prompt_for(selector: u8) -> (prompt: String)
    ensures
        prompt@ == spec_poem_prompt(selector),
{
    let index: u8 = selector % SEED_TEMPLATES;
    if index == 0 {
        String::from_str("for a poem about robots")
    } else if index == 1 {
        String::from_str(
            "for poem about students engineering building a robot for team-based competitive game",
        )
    } else if index == 2 {
        String::from_str("about robots playing competitive games together")
    } else {
        String::from_str(
            "pertaining to the themes education, science, robotics and friendly competition",
        )
    }
}

/// One of the seed templates, each as likely as the others.
pub fn get_poem_prompt() -> (prompt: String)
    ensures
        exists|selector: u8| prompt@ == spec_poem_prompt(selector),
        seed_templates().contains(prompt@),
        prompt@.len() > 0,
{
    let selector = random_selector();
    proof {
        lemma_seed_templates();
        assert(seed_templates()[selector as int % SEED_TEMPLATES as int] == spec_poem_prompt(
            selector,
        ));
    }
    poem_prompt_for(selector)
}

/// The seed prompt a poem is made from: the caller's own where it is not
/// blank, to the letter, and else the template that `selector` stands for.
pub open spec fn spec_resolve_seed(prompt: Seq<char>, selector: u8) -> Seq<char> {
    if spec_is_blank(prompt) {
        spec_poem_prompt(selector)
    } else {
        prompt
    }
}

/// The seed prompt a poem is made from: `prompt` where it is not blank, else
/// the template that `selector` stands for.
pub fn resolve_seed(prompt: String, selector: u8) -> (seed: String)
    ensures
        seed@ == spec_resolve_seed(prompt@, selector),
        !spec_is_blank(prompt@) ==> seed@ == prompt@,
        spec_is_blank(prompt@) ==> seed_templates().contains(seed@) && seed@.len() > 0,
{
    proof {
        if spec_is_blank(prompt@) {
            lemma_blank_seed_is_replaced(prompt@, selector);
        }
    }
    if !is_blank(prompt.as_str()) {
        prompt
    } else {
        poem_prompt_for(selector)
    }
}

/// The wording of the request that turns the seed prompt into a richer one.
pub open spec fn spec_first_stage(form: PoemType, seed: Seq<char>) -> Seq<char> {
    "Write a "@ + form.spec_label() + " prompt "@ + seed
}

/// The wording of the request for the body of the poem.
pub open spec fn spec_second_stage(form: PoemType, expanded: Seq<char>) -> Seq<char> {
    "Write a "@ + form.spec_label() + " about:\n"@ + expanded
}

/// The wording of the request for the title of the poem.
pub open spec fn spec_title_prompt(form: PoemType, expanded: Seq<char>) -> Seq<char> {
    "Write a title for a "@ + form.spec_label() + " about:\n"@ + expanded
}

/// The wording of the request that turns the seed prompt into a richer one.
pub fn first_stage(form: PoemType, seed: &str) -> (text: String)
    ensures
        text@ == spec_first_stage(form, seed@),
{
    let mut text = String::from_str("Write a ");
    text.append(form.label());
    text.append(" prompt ");
    text.append(seed);
    text
}

/// The wording of the request for the body of the poem.
pub fn second_stage(form: PoemType, expanded: &str) -> (text: String)
    ensures
        text@ == spec_second_stage(form, expanded@),
{
    let mut text = String::from_str("Write a ");
    text.append(form.label());
    text.append(" about:\n");
    text.append(expanded);
    text
}

/// The wording of the request for the title of the poem.
pub fn title_prompt(form: PoemType, expanded: &str) -> (text: String)
    ensures
        text@ == spec_title_prompt(form, expanded@),
{
    let mut text = String::from_str("Write a title for a ");
    text.append(form.label());
    text.append(" about:\n");
    text.append(expanded);
    text
}

/// What a [`Poem`] holds.
pub ghost struct PoemView {
    pub poem_type: PoemType,
    pub first_stage: Seq<char>,
    pub second_stage: Seq<char>,
    pub title: Seq<char>,
    pub poem: Seq<char>,
}

/// A finished poem: its form, the wording of the two requests that led to
/// it, its title and its body. There is no poem with a part missing.
#[derive(Debug)]
pub struct Poem {
    pub poem_type: PoemType,
    pub first_stage: String,
    pub second_stage: String,
    pub title: String,
    pub poem: String,
}

impl View for Poem {
    type V = PoemView;

    open spec fn view(&self) -> PoemView {
        PoemView {
            poem_type: self.poem_type,
            first_stage: self.first_stage@,
            second_stage: self.second_stage@,
            title: self.title@,
            poem: self.poem@,
        }
    }
}

/// What a [`PoemGenBuilder`] is set to.
pub ghost struct BuilderView {
    pub prompt: Seq<char>,
    pub poem_type: Option<PoemType>,
    pub first_stage_ai: AiType,
    pub poem_ai: AiType,
    pub title_ai: AiType,
}

/// The settings a poem is generated from: a seed prompt, a form, and the
/// model of each stage. It is used up by the generation it starts.
pub struct PoemGenBuilder {
    prompt: String,
    poem_type: Option<PoemType>,
    first_stage_ai: AiType,
    poem_ai: AiType,
    title_ai: AiType,
}

impl View for PoemGenBuilder {
    type V = BuilderView;

    closed spec fn view(&self) -> BuilderView {
        BuilderView {
            prompt: self.prompt@,
            poem_type: self.poem_type,
            first_stage_ai: self.first_stage_ai,
            poem_ai: self.poem_ai,
            title_ai: self.title_ai,
        }
    }
}

impl PoemGenBuilder {
    /// A builder with no seed prompt and no form, so that both are drawn, and
    /// with the instruct model for every stage.
    pub fn new() -> (builder: Self)
        ensures
            builder@ == (BuilderView {
                prompt: Seq::<char>::empty(),
                poem_type: None,
                first_stage_ai: AiType::GPT3_5_Instruct,
                poem_ai: AiType::GPT3_5_Instruct,
                title_ai: AiType::GPT3_5_Instruct,
            }),
    {
        Self {
            prompt: String::new(),
            poem_type: None,
            first_stage_ai: AiType::GPT3_5_Instruct,
            poem_ai: AiType::GPT3_5_Instruct,
            title_ai: AiType::GPT3_5_Instruct,
        }
    }

    /// Sets the seed prompt. A blank one leaves the seed prompt to be drawn.
    pub fn set_prompt(&mut self, prompt: String)
        ensures
            final(self)@ == (BuilderView { prompt: prompt@, ..old(self)@ }),
    {
        self.prompt = prompt;
    }

    /// The builder with `prompt` for its seed prompt. A blank one leaves the
    /// seed prompt to be drawn.
    pub fn with_prompt(self, prompt: String) -> (builder: Self)
        ensures
            builder@ == (BuilderView { prompt: prompt@, ..self@ }),
    {
        let mut builder = self;
        builder.prompt = prompt;
        builder
    }

    /// Asks for the form `poem_type` in place of a drawn one.
    pub fn with_poem_type(self, poem_type: PoemType) -> (builder: Self)
        ensures
            builder@ == (BuilderView { poem_type: Some(poem_type), ..self@ }),
    {
        let mut builder = self;
        builder.poem_type = Some(poem_type);
        builder
    }

    /// Sends each stage to a model of its own.
    pub fn with_models(
        self,
        first_stage_ai: AiType,
        title_ai: AiType,
        poem_ai: AiType,
    ) -> (builder: Self)
        ensures
            builder@ == (BuilderView { first_stage_ai, title_ai, poem_ai, ..self@ }),
    {
        let mut builder = self;
        builder.first_stage_ai = first_stage_ai;
        builder.title_ai = title_ai;
        builder.poem_ai = poem_ai;
        builder
    }
}

/// How far a generation has come, and what it has gathered so far.
pub ghost enum GenerationView {
    /// The request for the expanded prompt is out.
    AwaitingPrompt { poem_type: PoemType, first_stage: Seq<char>, title_ai: AiType, poem_ai: AiType },
    /// The request for the title is out.
    AwaitingTitle {
        poem_type: PoemType,
        first_stage: Seq<char>,
        second_stage: Seq<char>,
        poem_ai: AiType,
    },
    /// The request for the body is out.
    AwaitingPoem {
        poem_type: PoemType,
        first_stage: Seq<char>,
        second_stage: Seq<char>,
        title: Seq<char>,
    },
}

/// What a step of a generation leaves its caller to do.
pub ghost enum StepView<E> {
    Ask(GenerationView, RequestView),
    Done(PoemView),
    Failed(E),
}

/// The state a builder starts from, and the first request: for the expanded
/// prompt, worded after the form and the seed prompt, to the model of the first
/// stage. The selectors count only where the builder leaves the seed prompt
/// or the form open.
pub open spec fn spec_start(builder: BuilderView, seed_selector: u8, form_selector: u8) -> (
    GenerationView,
    RequestView,
) {
    let form = match builder.poem_type {
        Some(form) => form,
        None => PoemType::spec_from_selector(form_selector),
    };
    let first_stage = spec_first_stage(form, spec_resolve_seed(builder.prompt, seed_selector));
    (
        GenerationView::AwaitingPrompt {
            poem_type: form,
            first_stage,
            title_ai: builder.title_ai,
            poem_ai: builder.poem_ai,
        },
        spec_request(first_stage, AiSettings::new_prompt(builder.first_stage_ai)),
    )
}

/// What follows on the outcome of the request that is out.
///
/// A failure ends the generation with that failure, whatever the stage. A
/// reply is trimmed: the expanded prompt is followed by the request for the
/// title, the title by the request for the body, and the body by the poem.
pub open spec fn spec_advance<E>(state: GenerationView, reply: Result<Seq<char>, E>) -> StepView<E> {
    match reply {
        Err(failure) => StepView::Failed(failure),
        Ok(text) => match state {
            GenerationView::AwaitingPrompt { poem_type, first_stage, title_ai, poem_ai } => {
                StepView::Ask(
                    GenerationView::AwaitingTitle {
                        poem_type,
                        first_stage,
                        second_stage: spec_second_stage(poem_type, spec_trim(text)),
                        poem_ai,
                    },
                    spec_request(
                        spec_title_prompt(poem_type, spec_trim(text)),
                        AiSettings::new_title(title_ai),
                    ),
                )
            },
            GenerationView::AwaitingTitle { poem_type, first_stage, second_stage, poem_ai } => {
                StepView::Ask(
                    GenerationView::AwaitingPoem {
                        poem_type,
                        first_stage,
                        second_stage,
                        title: spec_trim(text),
                    },
                    spec_request(second_stage, AiSettings::new_poem(poem_ai)),
                )
            },
            GenerationView::AwaitingPoem { poem_type, first_stage, second_stage, title } => {
                StepView::Done(
                    PoemView { poem_type, first_stage, second_stage, title, poem: spec_trim(text) },
                )
            },
        },
    }
}

/// The view of a reply: its text as characters, a failure as it is.
pub open spec fn reply_view<E>(reply: Result<String, E>) -> Result<Seq<char>, E> {
    match reply {
        Ok(text) => Ok(text@),
        Err(failure) => Err(failure),
    }
}

enum Stage {
    AwaitingPrompt { title_ai: AiType, poem_ai: AiType },
    AwaitingTitle { second_stage: String, poem_ai: AiType },
    AwaitingPoem { second_stage: String, title: String },
}

/// A generation under way: one request is out, and the state waits for its
/// outcome.
pub struct Generation {
    poem_type: PoemType,
    first_stage: String,
    stage: Stage,
}

impl View for Generation {
    type V = GenerationView;

    closed spec fn view(&self) -> GenerationView {
        match self.stage {
            Stage::AwaitingPrompt { title_ai, poem_ai } => GenerationView::AwaitingPrompt {
                poem_type: self.poem_type,
                first_stage: self.first_stage@,
                title_ai,
                poem_ai,
            },
            Stage::AwaitingTitle { second_stage, poem_ai } => GenerationView::AwaitingTitle {
                poem_type: self.poem_type,
                first_stage: self.first_stage@,
                second_stage: second_stage@,
                poem_ai,
            },
            Stage::AwaitingPoem { second_stage, title } => GenerationView::AwaitingPoem {
                poem_type: self.poem_type,
                first_stage: self.first_stage@,
                second_stage: second_stage@,
                title: title@,
            },
        }
    }
}

/// What a step of a generation leaves its caller to do: send a request and
/// come back with its outcome, take the poem, or take the failure.
pub enum Step<E> {
    Ask(Generation, GenerationRequest),
    Done(Poem),
    Failed(E),
}

impl<E> View for Step<E> {
    type V = StepView<E>;

    open spec fn view(&self) -> StepView<E> {
        match self {
            Step::Ask(state, request) => StepView::Ask(state@, request@),
            Step::Done(poem) => StepView::Done(poem@),
            Step::Failed(failure) => StepView::Failed(*failure),
        }
    }
}

impl PoemGenBuilder {
    /// Starts a generation with the seed prompt and the form that the
    /// selectors stand for, where the builder leaves them open.
    pub fn start(self, seed_selector: u8, form_selector: u8) -> (started: (
        Generation,
        GenerationRequest,
    ))
        ensures
            (started.0@, started.1@) == spec_start(self@, seed_selector, form_selector),
    {
        let form = match self.poem_type {
            Some(form) => form,
            None => PoemType::from_selector(form_selector),
        };
        let seed = resolve_seed(self.prompt, seed_selector);
        Generation::begin(form, seed, self.first_stage_ai, self.title_ai, self.poem_ai)
    }

    /// Starts a generation, drawing the seed prompt or the form where the
    /// builder leaves it open.
    pub fn generate(self) -> (started: (Generation, GenerationRequest))
        ensures
            exists|seed_selector: u8, form_selector: u8|
                (started.0@, started.1@) == spec_start(self@, seed_selector, form_selector),
            !spec_is_blank(self@.prompt) && self@.poem_type is Some ==> (started.0@, started.1@)
                == spec_start(self@, 0, 0),
    {
        let ghost builder = self@;
        let ghost mut seed_selector: u8 = 0;
        let ghost mut form_selector: u8 = 0;
        let seed = if !is_blank(self.prompt.as_str()) {
            self.prompt
        } else {
            let drawn = get_poem_prompt();
            proof {
                seed_selector = choose|selector: u8| drawn@ == spec_poem_prompt(selector);
            }
            drawn
        };
        let form = match self.poem_type {
            Some(form) => form,
            None => {
                let drawn = PoemType::random();
                proof {
                    form_selector = choose|selector: u8|
                        drawn == PoemType::spec_from_selector(selector);
                }
                drawn
            },
        };
        assert(seed@ == spec_resolve_seed(builder.prompt, seed_selector));
        let started = Generation::begin(
            form,
            seed,
            self.first_stage_ai,
            self.title_ai,
            self.poem_ai,
        );
        assert((started.0@, started.1@) == spec_start(builder, seed_selector, form_selector));
        started
    }
}

impl Generation {
    fn begin(
        form: PoemType,
        seed: String,
        first_stage_ai: AiType,
        title_ai: AiType,
        poem_ai: AiType,
    ) -> (started: (Generation, GenerationRequest))
        ensures
            started.0@ == (GenerationView::AwaitingPrompt {
                poem_type: form,
                first_stage: spec_first_stage(form, seed@),
                title_ai,
                poem_ai,
            }),
            started.1@ == spec_request(
                spec_first_stage(form, seed@),
                AiSettings::new_prompt(first_stage_ai),
            ),
    {
        let text = first_stage(form, seed.as_str());
        let request = GenerationRequest::new(text.as_str(), AiSettings::new_prompt(first_stage_ai));
        let state = Generation {
            poem_type: form,
            first_stage: text,
            stage: Stage::AwaitingPrompt { title_ai, poem_ai },
        };
        (state, request)
    }

    /// Takes the outcome of the request that is out and says what comes next.
    pub fn advance<E>(self, reply: Result<String, E>) -> (step: Step<E>)
        ensures
            step@ == spec_advance(self@, reply_view(reply)),
    {
        let text = match reply {
            Ok(text) => text,
            Err(failure) => {
                return Step::Failed(failure);
            },
        };
        let trimmed = trim(text.as_str());
        match self.stage {
            Stage::AwaitingPrompt { title_ai, poem_ai } => {
                let title_text = title_prompt(self.poem_type, trimmed);
                let request = GenerationRequest::new(
                    title_text.as_str(),
                    AiSettings::new_title(title_ai),
                );
                let state = Generation {
                    poem_type: self.poem_type,
                    first_stage: self.first_stage,
                    stage: Stage::AwaitingTitle {
                        second_stage: second_stage(self.poem_type, trimmed),
                        poem_ai,
                    },
                };
                Step::Ask(state, request)
            },
            Stage::AwaitingTitle { second_stage, poem_ai } => {
                let request = GenerationRequest::new(
                    second_stage.as_str(),
                    AiSettings::new_poem(poem_ai),
                );
                let state = Generation {
                    poem_type: self.poem_type,
                    first_stage: self.first_stage,
                    stage: Stage::AwaitingPoem { second_stage, title: String::from_str(trimmed) },
                };
                Step::Ask(state, request)
            },
            Stage::AwaitingPoem { second_stage, title } => Step::Done(
                Poem {
                    poem_type: self.poem_type,
                    first_stage: self.first_stage,
                    second_stage,
                    title,
                    poem: String::from_str(trimmed),
                },
            ),
        }
    }
}

/// There are four seed templates, no two the same, and none of them is empty
/// or blank.
pub proof fn lemma_seed_templates()
    ensures
        seed_templates().len() == SEED_TEMPLATES,
        seed_templates().no_duplicates(),
        forall|i: int|
            0 <= i < seed_templates().len() ==> (#[trigger] seed_templates()[i]).len() > 0
                && !spec_is_blank(seed_templates()[i]),
{
    reveal_strlit("for a poem about robots");
    reveal_strlit(
        "for poem about students engineering building a robot for team-based competitive game",
    );
    reveal_strlit("about robots playing competitive games together");
    reveal_strlit("pertaining to the themes education, science, robotics and friendly competition");
    assert forall|i: int| 0 <= i < seed_templates().len() implies !spec_is_blank(
        #[trigger] seed_templates()[i],
    ) by {
        let template = seed_templates()[i];
        assert(!spec_is_whitespace(template[0]));
        lemma_blank_is_all_whitespace(template);
    }
}

/// A seed prompt that is not blank is used as it was given, whatever is drawn.
pub proof fn lemma_given_seed_is_kept(prompt: Seq<char>, selector: u8)
    requires
        !spec_is_blank(prompt),
    ensures
        spec_resolve_seed(prompt, selector) == prompt,
{
}

/// A blank seed prompt gives way to one of the seed templates.
pub proof fn lemma_blank_seed_is_replaced(prompt: Seq<char>, selector: u8)
    requires
        spec_is_blank(prompt),
    ensures
        seed_templates().contains(spec_resolve_seed(prompt, selector)),
        spec_resolve_seed(prompt, selector).len() > 0,
        !spec_is_blank(spec_resolve_seed(prompt, selector)),
{
    lemma_seed_templates();
    let index = selector as int % SEED_TEMPLATES as int;
    assert(seed_templates()[index] == spec_resolve_seed(prompt, selector));
}

/// Nine forms are active, no two the same; the four others are Haiku,
/// Limerick, Ballad and Epitaph. Every active form has a selector below 9.
pub proof fn lemma_active_forms()
    ensures
        PoemType::active().len() == ACTIVE_FORMS,
        PoemType::active().no_duplicates(),
        forall|form: PoemType|
            #[trigger] form.is_active() <==> form != PoemType::Haiku && form != PoemType::Limerick
                && form != PoemType::Ballad && form != PoemType::Epitaph,
        forall|form: PoemType| #[trigger]
            form.is_active() ==> exists|selector: u8|
                selector < ACTIVE_FORMS && PoemType::spec_from_selector(selector) == form,
        forall|selector: u8| (#[trigger] PoemType::spec_from_selector(selector)).is_active(),
{
    let active = PoemType::active();
    assert forall|form: PoemType|
        form != PoemType::Haiku && form != PoemType::Limerick && form != PoemType::Ballad && form
            != PoemType::Epitaph implies #[trigger] form.is_active() by {
        let index: int = match form {
            PoemType::Sonnet => 0,
            PoemType::Villanelle => 1,
            PoemType::Ekphrastic => 2,
            PoemType::Concrete => 3,
            PoemType::Elegy => 4,
            PoemType::Epigram => 5,
            PoemType::DrSeuss => 6,
            PoemType::Ode => 7,
            _ => 8,
        };
        assert(active[index] == form);
    }
    assert forall|form: PoemType| #[trigger] form.is_active() implies exists|selector: u8|
        selector < ACTIVE_FORMS && PoemType::spec_from_selector(selector) == form by {
        let index = choose|index: int| 0 <= index < active.len() && active[index] == form;
        assert(PoemType::spec_from_selector(index as u8) == form);
    }
    assert forall|selector: u8| (#[trigger] PoemType::spec_from_selector(selector)).is_active() by {
        let index = selector as int % ACTIVE_FORMS as int;
        assert(active[index] == PoemType::spec_from_selector(selector));
    }
}

/// How many of the selectors below `bound` stand for `form`.
pub open spec fn form_selectors(form: PoemType, bound: nat) -> nat
    decreases bound,
{
    if bound == 0 {
        0
    } else {
        form_selectors(form, (bound - 1) as nat) + if PoemType::spec_from_selector(
            (bound - 1) as u8,
        ) == form {
            1nat
        } else {
            0nat
        }
    }
}

/// How many of the selectors below `bound` stand for the seed prompt `seed`.
pub open spec fn seed_selectors(seed: Seq<char>, bound: nat) -> nat
    decreases bound,
{
    if bound == 0 {
        0
    } else {
        seed_selectors(seed, (bound - 1) as nat) + if spec_poem_prompt((bound - 1) as u8) == seed {
            1nat
        } else {
            0nat
        }
    }
}

proof fn lemma_form_selectors_below(index: int, bound: nat)
    requires
        0 <= index < ACTIVE_FORMS,
        bound <= 256,
    ensures
        form_selectors(PoemType::active()[index], bound) == bound / 9 + if bound % 9 > index {
            1nat
        } else {
            0nat
        },
    decreases bound,
{
    if bound > 0 {
        lemma_form_selectors_below(index, (bound - 1) as nat);
        lemma_active_forms();
        let drawn = (bound - 1) % 9;
        assert(PoemType::spec_from_selector((bound - 1) as u8) == PoemType::active()[drawn]);
        assert(PoemType::active()[drawn] == PoemType::active()[index] <==> drawn == index);
    }
}

proof fn lemma_seed_selectors_below(index: int, bound: nat)
    requires
        0 <= index < SEED_TEMPLATES,
        bound <= 256,
    ensures
        seed_selectors(seed_templates()[index], bound) == bound / 4 + if bound % 4 > index {
            1nat
        } else {
            0nat
        },
    decreases bound,
{
    if bound > 0 {
        lemma_seed_selectors_below(index, (bound - 1) as nat);
        lemma_seed_templates();
        let drawn = (bound - 1) % 4;
        assert(spec_poem_prompt((bound - 1) as u8) == seed_templates()[drawn]);
        assert(seed_templates()[drawn] == seed_templates()[index] <==> drawn == index);
    }
}

proof fn lemma_inactive_form_has_no_selector(form: PoemType, bound: nat)
    requires
        !form.is_active(),
        bound <= 256,
    ensures
        form_selectors(form, bound) == 0,
    decreases bound,
{
    if bound > 0 {
        lemma_inactive_form_has_no_selector(form, (bound - 1) as nat);
        lemma_active_forms();
    }
}

/// The 256 selectors are dealt out evenly: every active form has 28 or 29 of
/// them, and a form that is not active has none.
pub proof fn lemma_forms_share_selectors(form: PoemType)
    ensures
        form.is_active() ==> 28 <= form_selectors(form, 256) <= 29,
        !form.is_active() ==> form_selectors(form, 256) == 0,
{
    lemma_active_forms();
    if form.is_active() {
        let index = choose|index: int|
            0 <= index < PoemType::active().len() && PoemType::active()[index] == form;
        lemma_form_selectors_below(index, 256);
    } else {
        lemma_inactive_form_has_no_selector(form, 256);
    }
}

/// Every seed template has 64 of the 256 selectors.
pub proof fn lemma_seeds_share_selectors(index: int)
    requires
        0 <= index < SEED_TEMPLATES,
    ensures
        seed_selectors(seed_templates()[index], 256) == 64,
{
    lemma_seed_selectors_below(index, 256);
}

/// The selectors count only where the builder leaves something open: with
/// a seed prompt that is not blank the start is the same whatever seed
/// selector is drawn, and with a form given it is the same whatever form
/// selector is drawn.
pub proof fn lemma_start_draws_only_what_is_open(
    builder: BuilderView,
    seed_selector: u8,
    form_selector: u8,
    other_seed_selector: u8,
    other_form_selector: u8,
)
    ensures
        !spec_is_blank(builder.prompt) ==> spec_start(builder, seed_selector, form_selector)
            == spec_start(builder, other_seed_selector, form_selector),
        builder.poem_type is Some ==> spec_start(builder, seed_selector, form_selector)
            == spec_start(builder, seed_selector, other_form_selector),
{
}

/// A failure ends the generation with that failure, at whatever stage it
/// comes: no poem is made of what came before, and no request follows.
pub proof fn lemma_failure_ends_generation<E>(state: GenerationView, failure: E)
    ensures
        spec_advance(state, Err::<Seq<char>, E>(failure)) == StepView::Failed(failure),
{
}

/// A poem comes of one step only: the reply to the request for the body.
pub proof fn lemma_poem_needs_every_reply<E>(state: GenerationView, reply: Result<Seq<char>, E>)
    ensures
        spec_advance(state, reply) is Done <==> state is AwaitingPoem && reply is Ok,
        spec_advance(state, reply) is Failed <==> reply is Err,
        spec_advance(state, reply) matches StepView::Ask(next, _) ==> (state is AwaitingPrompt
            ==> next is AwaitingTitle) && (state is AwaitingTitle ==> next is AwaitingPoem),
{
}

/// Three replies in a row make the poem. The requests are, in this order: for
/// the expanded prompt, worded after the form and the seed prompt; for the
/// title and for the body, both worded after the form and the trimmed
/// expanded prompt; each to the model of its stage, under the settings of its
/// stage. The poem holds the form, the wording of the first and of the last
/// request, and the trimmed title and body.
pub proof fn lemma_three_replies_make_poem<E>(
    builder: BuilderView,
    seed_selector: u8,
    form_selector: u8,
    expanded: Seq<char>,
    title: Seq<char>,
    body: Seq<char>,
)
    ensures
        ({
            let form = match builder.poem_type {
                Some(form) => form,
                None => PoemType::spec_from_selector(form_selector),
            };
            let first = spec_first_stage(form, spec_resolve_seed(builder.prompt, seed_selector));
            let second = spec_second_stage(form, spec_trim(expanded));
            let (state0, request0) = spec_start(builder, seed_selector, form_selector);
            &&& request0 == spec_request(first, AiSettings::new_prompt(builder.first_stage_ai))
            &&& spec_advance::<E>(state0, Ok(expanded)) matches StepView::Ask(state1, request1)
            &&& request1 == spec_request(
                spec_title_prompt(form, spec_trim(expanded)),
                AiSettings::new_title(builder.title_ai),
            )
            &&& spec_advance::<E>(state1, Ok(title)) matches StepView::Ask(state2, request2)
            &&& request2 == spec_request(second, AiSettings::new_poem(builder.poem_ai))
            &&& spec_advance::<E>(state2, Ok(body)) == StepView::<E>::Done(
                PoemView {
                    poem_type: form,
                    first_stage: first,
                    second_stage: second,
                    title: spec_trim(title),
                    poem: spec_trim(body),
                },
            )
        }),
{
}

/// The prompt for a picture of the poem: its form, its title and its body,
/// cut down to the first thousand characters.
pub open spec fn spec_image_prompt(poem: PoemView) -> Seq<char> {
    spec_truncate(
        "Picture of the "@ + poem.poem_type.spec_label() + " named "@ + poem.title
            + "\n\nCONTENT:\n\n"@ + poem.poem + "\n\n"@,
        IMAGE_PROMPT_LIMIT as nat,
    )
}

/// The poem laid out for reading: the wording of the two requests, the title
/// and the body, each under a rule of its own.
pub open spec fn spec_render(poem: PoemView) -> Seq<char> {
    spec_repeat('-', 35) + "FIRST-STAGE"@ + spec_repeat('-', 34) + "\n"@ + poem.first_stage + "\n"@
        + spec_repeat('-', 80) + "\n"@ + spec_repeat('-', 34) + "SECOND-STAGE"@ + spec_repeat(
        '-',
        34,
    ) + "\n"@ + poem.second_stage + "\n"@ + spec_repeat('^', 80) + "\n"@ + poem.title + "\n"@
        + spec_repeat('-', 80) + "\n"@ + poem.poem + "\n"@ + spec_repeat('=', 80) + "\n"@
}

impl Poem {
    /// The prompt for a picture of the poem.
    pub fn image_prompt(&self) -> (prompt: String)
        ensures
            prompt@ == spec_image_prompt(self@),
            prompt@.len() <= IMAGE_PROMPT_LIMIT,
    {
        let mut full = String::from_str("Picture of the ");
        full.append(self.poem_type.label());
        full.append(" named ");
        full.append(self.title.as_str());
        full.append("\n\nCONTENT:\n\n");
        full.append(self.poem.as_str());
        full.append("\n\n");
        String::from_str(truncate(full.as_str(), IMAGE_PROMPT_LIMIT))
    }

    /// The poem laid out for reading.
    pub fn render(&self) -> (page: String)
        ensures
            page@ == spec_render(self@),
    {
        let mut page = repeat('-', 35);
        page.append("FIRST-STAGE");
        page.append(repeat('-', 34).as_str());
        page.append("\n");
        page.append(self.first_stage.as_str());
        page.append("\n");
        page.append(repeat('-', 80).as_str());
        page.append("\n");
        page.append(repeat('-', 34).as_str());
        page.append("SECOND-STAGE");
        page.append(repeat('-', 34).as_str());
        page.append("\n");
        page.append(self.second_stage.as_str());
        page.append("\n");
        page.append(repeat('^', 80).as_str());
        page.append("\n");
        page.append(self.title.as_str());
        page.append("\n");
        page.append(repeat('-', 80).as_str());
        page.append("\n");
        page.append(self.poem.as_str());
        page.append("\n");
        page.append(repeat('=', 80).as_str());
        page.append("\n");
        page
    }
}

} // verus!
