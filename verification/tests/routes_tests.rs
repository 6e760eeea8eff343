use enlightened_cat::routes::{chat_reply, generate_topic_suggestions, suggested_topics};

#[test]
fn work_keywords_select_the_work_topics() {
    let topics = generate_topic_suggestions("I hate my job lately");
    assert_eq!(
        topics,
        vec![
            "Work-life balance".to_string(),
            "Finding meaning in your career".to_string(),
            "Mindfulness at work".to_string(),
        ]
    );
}

#[test]
fn stress_keywords_select_the_stress_topics() {
    let topics = generate_topic_suggestions("so much anxiety today");
    assert_eq!(
        topics,
        vec![
            "Stress reduction techniques".to_string(),
            "Mindful breathing".to_string(),
            "Creating peaceful spaces".to_string(),
        ]
    );
}

#[test]
fn meditation_keywords_select_the_meditation_topics() {
    let topics = generate_topic_suggestions("how do I meditate?");
    assert_eq!(
        topics,
        vec![
            "Daily meditation practices".to_string(),
            "Mindfulness in everyday moments".to_string(),
            "The science of meditation".to_string(),
        ]
    );
}

#[test]
fn unmatched_messages_get_the_default_topics() {
    let topics = generate_topic_suggestions("hello there");
    assert_eq!(
        topics,
        vec![
            "Finding balance".to_string(),
            "Mindfulness practices".to_string(),
            "Creating peaceful moments".to_string(),
        ]
    );
}

#[test]
fn keyword_matching_is_case_insensitive() {
    // An uppercase message only matches because it is lowercased first.
    let topics = generate_topic_suggestions("I AM SO STRESSED");
    assert_eq!(topics[0], "Stress reduction techniques");
    // The work keywords take precedence over the stress keywords.
    let topics = generate_topic_suggestions("STRESSED ABOUT WORK");
    assert_eq!(topics[0], "Work-life balance");
}

#[test]
fn topics_are_suggested_only_deep_enough_and_on_interest() {
    assert!(suggested_topics("yes, tell me more", 0).is_none());
    assert!(suggested_topics("yes, tell me more", 1).is_none());
    assert!(suggested_topics("completely unrelated", 2).is_none());
    let topics = suggested_topics("yes, go deeper about my career", 2).unwrap();
    assert_eq!(topics[0], "Work-life balance");
    assert!(suggested_topics("MORE please", 3).is_some());
}

#[test]
fn chat_reply_carries_the_assistant_text() {
    let reply = chat_reply("hello", 0, "purr".to_string());
    assert_eq!(reply.message, "purr");
    assert!(reply.suggested_topics.is_none());

    let reply = chat_reply("tell me more about stress", 2, "purr".to_string());
    let topics = reply.suggested_topics.unwrap();
    assert_eq!(topics[0], "Stress reduction techniques");
}
