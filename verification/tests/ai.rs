use poem_gen::ai::{
    concat_choices, AiSettings, AiType, GenerationRequest, ImageRequest, ImageSize,
    IMAGE_PROMPT_LIMIT,
};

#[test]
fn model_names_are_the_providers_identifiers() {
    assert_eq!(AiType::GPT3_5_Instruct.model_name(), "gpt-3.5-turbo-instruct");
    assert_eq!(AiType::GPT4oMini.model_name(), "gpt-4o-mini");
    assert_eq!(AiType::GPT4o.model_name(), "gpt-4o");
    assert_eq!(AiType::GPT3_5.model_name(), "gpt-3.5-turbo-0125");
}

#[test]
fn poem_settings_are_the_longest_and_hottest() {
    let settings = AiSettings::new_poem(AiType::GPT4o);
    assert_eq!(settings.model, AiType::GPT4o);
    assert_eq!(settings.max_tokens, 128);
    assert_eq!(settings.n, 1);
    assert_eq!(settings.temperature_milli, 969);
}

#[test]
fn title_settings_are_the_shortest() {
    let settings = AiSettings::new_title(AiType::GPT3_5);
    assert_eq!(settings.model, AiType::GPT3_5);
    assert_eq!(settings.max_tokens, 32);
    assert_eq!(settings.n, 1);
    assert_eq!(settings.temperature_milli, 769);
}

#[test]
fn prompt_settings_are_of_moderate_length() {
    let settings = AiSettings::new_prompt(AiType::GPT4oMini);
    assert_eq!(settings.model, AiType::GPT4oMini);
    assert_eq!(settings.max_tokens, 64);
    assert_eq!(settings.n, 1);
    assert_eq!(settings.temperature_milli, 769);
}

#[test]
fn temperature_in_thousandths_is_the_decimal_temperature() {
    assert_eq!(AiSettings::new_poem(AiType::GPT4o).temperature_milli as f32 / 1000.0, 0.969f32);
    assert_eq!(AiSettings::new_title(AiType::GPT4o).temperature_milli as f32 / 1000.0, 0.769f32);
    assert_eq!(AiSettings::new_prompt(AiType::GPT4o).temperature_milli as f32 / 1000.0, 0.769f32);
}

#[test]
fn request_carries_prompt_and_settings() {
    let request = GenerationRequest::new("Write a Sonnet", AiSettings::new_poem(AiType::GPT4oMini));
    assert_eq!(request.model(), "gpt-4o-mini");
    assert_eq!(request.prompt(), "Write a Sonnet");
    assert_eq!(request.max_tokens(), 128);
    assert_eq!(request.n(), 1);
    assert_eq!(request.temperature_milli(), 969);
    assert!(!request.stream());
}

#[test]
fn request_takes_settings_made_by_hand() {
    let settings =
        AiSettings { model: AiType::GPT3_5, max_tokens: 7, n: 3, temperature_milli: 1500 };
    let request = GenerationRequest::new("", settings);
    assert_eq!(request.model(), "gpt-3.5-turbo-0125");
    assert_eq!(request.prompt(), "");
    assert_eq!(request.max_tokens(), 7);
    assert_eq!(request.n(), 3);
    assert_eq!(request.temperature_milli(), 1500);
    assert!(!request.stream());
}

#[test]
fn choices_are_joined_in_order() {
    let choices = vec![" Roses".to_string(), " are".to_string(), "".to_string(), " red\n".to_string()];
    assert_eq!(concat_choices(&choices), " Roses are red\n");
}

#[test]
fn no_choice_is_an_empty_reply() {
    assert_eq!(concat_choices(&Vec::new()), "");
    assert_eq!(concat_choices(&vec!["one".to_string()]), "one");
}

#[test]
fn image_request_holds_what_it_was_made_of() {
    let request = ImageRequest::new("Picture of the Ode", 2, ImageSize::S512x512);
    assert_eq!(request.prompt(), "Picture of the Ode");
    assert_eq!(request.n(), 2);
    assert_eq!(request.size(), ImageSize::S512x512);
    assert!(request.as_url());
    assert_eq!(request.user(), "poem-gen");
}

#[test]
fn image_request_keeps_a_thousand_characters() {
    assert_eq!(IMAGE_PROMPT_LIMIT, 1000);
    let long = "é".repeat(1001);
    let request = ImageRequest::new(&long, 1, ImageSize::S256x256);
    assert_eq!(request.prompt().chars().count(), 1000);
    assert_eq!(request.prompt(), "é".repeat(1000));
    let exact = "x".repeat(1000);
    assert_eq!(ImageRequest::new(&exact, 1, ImageSize::S1024x1024).prompt(), exact);
}
