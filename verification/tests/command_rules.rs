use dank_gateway::commands::{get_commands, route, route_and_record, Command, CommandKind};
use dank_gateway::message::{DiscordClient, DiscordMessage, MessageError, PEPE_ID};
use dank_gateway::model::{
    ComponentOption, ComponentType, Embed, EmbedAuthor, Emoji, MasterCommandType,
    MessageComponent, MessageCreateData, MessageCreateDataAuthor, MessageCreateDataComponent,
    ReadyDataUser,
};
use dank_gateway::rules::{
    color_match_choice, high_low_choice, label_begins_with, read_color_parts, settle,
    HandlerError, HandlerRun, Step, StepOutcome, Target,
};

fn user(id: &str, username: &str) -> ReadyDataUser {
    ReadyDataUser {
        accent_color: None,
        avatar: None,
        banner: None,
        banner_color: None,
        bio: String::new(),
        desktop: false,
        discriminator: "0001".to_string(),
        email: String::new(),
        flags: 0,
        id: id.to_string(),
        mfa_enabled: false,
        mobile: false,
        nsfw_allowed: None,
        phone: None,
        premium: false,
        purchased_flags: 0,
        username: username.to_string(),
        verified: true,
    }
}

fn data(author_id: &str, content: &str) -> MessageCreateData {
    MessageCreateData {
        message_create_data_type: 0,
        tts: false,
        timestamp: String::new(),
        referenced_message: None,
        pinned: false,
        mentions: vec![],
        mention_roles: vec![],
        mention_everyone: false,
        id: "m1".to_string(),
        flags: 0,
        embeds: vec![],
        edited_timestamp: None,
        content: content.to_string(),
        components: vec![],
        channel_id: "chan".to_string(),
        author: MessageCreateDataAuthor {
            username: "someone".to_string(),
            public_flags: 0,
            id: author_id.to_string(),
            discriminator: "0001".to_string(),
            bot: None,
            avatar: None,
        },
        attachments: vec![],
        member: None,
        guild_id: Some("guild".to_string()),
        reactions: None,
    }
}

fn embed(title: Option<&str>, author: Option<&str>, description: Option<&str>) -> Embed {
    Embed {
        embed_type: None,
        author: author.map(|name| EmbedAuthor {
            name: name.to_string(),
            url: None,
            icon_url: None,
            proxy_icon_url: None,
        }),
        title: title.map(|t| t.to_string()),
        url: None,
        description: description.map(|d| d.to_string()),
        timestamp: None,
        footer: None,
        color: None,
        image: None,
        thumbnail: None,
        video: None,
        provider: None,
        fields: None,
    }
}

fn button(label: Option<&str>, disabled: bool) -> MessageComponent {
    MessageComponent {
        component_type: ComponentType::Button,
        placeholder: None,
        options: vec![],
        min_values: None,
        max_values: None,
        label: label.map(|l| l.to_string()),
        custom_id: Some("id".to_string()),
        style: None,
        emoji: None,
        disabled,
    }
}

fn emoji_button(name: Option<&str>) -> MessageComponent {
    let mut b = button(None, false);
    b.emoji = name.map(|n| Emoji { name: n.to_string(), id: "1".to_string() });
    b
}

fn row(components: Vec<MessageComponent>) -> MessageCreateDataComponent {
    MessageCreateDataComponent { component_type: ComponentType::ActionRow, components }
}

fn client() -> DiscordClient {
    DiscordClient {
        token: "t".to_string(),
        user: Some(user("42", "bot")),
        sequence: 0,
        session_id: "s".to_string(),
        master_id: Some("master".to_string()),
        commands: get_commands(),
    }
}

fn context(data: MessageCreateData) -> DiscordMessage {
    DiscordMessage::new(data, &client()).unwrap()
}

fn reply_to(text: &str, mut d: MessageCreateData) -> MessageCreateData {
    d.referenced_message = Some(Box::new(data("42", text)));
    d
}

fn matches(kind: CommandKind, d: MessageCreateData) -> bool {
    Command::of_kind(kind).matches(&context(d))
}

fn lines(items: &[&str]) -> Vec<String> {
    items.iter().map(|s| s.to_string()).collect()
}

fn click(on: Target, row: usize, column: usize) -> (Target, usize, usize, bool) {
    (on, row, column, false)
}

fn as_click(step: Step) -> (Target, usize, usize, bool) {
    match step {
        Step::Click { on, row, column, tolerant } => (on, row, column, tolerant),
        other => panic!("unexpected step {:?}", other),
    }
}

fn first_step(kind: CommandKind, d: MessageCreateData, pick: usize) -> Result<Step, HandlerError> {
    HandlerRun::new(kind).advance(&context(d), &vec![], pick)
}

const KINDS: [CommandKind; 19] = [
    CommandKind::MasterControl,
    CommandKind::HighLow,
    CommandKind::Hunt,
    CommandKind::Fish,
    CommandKind::Dig,
    CommandKind::Beg,
    CommandKind::DepositAll,
    CommandKind::Trivia,
    CommandKind::PostMemes,
    CommandKind::Stream,
    CommandKind::Pet,
    CommandKind::Daily,
    CommandKind::WordOrder,
    CommandKind::EmojiMatch,
    CommandKind::Soccer,
    CommandKind::ColorMatch,
    CommandKind::Dunk,
    CommandKind::AttackBoss,
    CommandKind::TriviaNight,
];

#[test]
fn registry_holds_one_descriptor_of_each_kind() {
    let commands = get_commands();
    assert_eq!(commands.len(), 19);
    let expected: [(Option<&str>, u64); 19] = [
        (None, 0),
        (Some("pls hl"), 30_000),
        (Some("pls hunt"), 40_000),
        (Some("pls fish"), 40_000),
        (Some("pls dig"), 40_000),
        (Some("pls beg"), 45_000),
        (Some("pls dep all"), 60_000),
        (Some("pls trivia"), 5_000),
        (Some("pls pm"), 30_000),
        (Some("pls stream"), 600_000),
        (Some("pls pet"), 1_200_000),
        (Some("pls daily"), 86_400_000),
        (None, 0),
        (None, 0),
        (None, 0),
        (None, 0),
        (None, 0),
        (None, 0),
        (None, 0),
    ];
    for i in 0..19 {
        assert_eq!(commands[i].kind, KINDS[i]);
        assert_eq!(commands[i].command.as_deref(), expected[i].0);
        assert_eq!(commands[i].cooldown, expected[i].1);
        assert_eq!(commands[i].last_called, None);
        assert_eq!(commands[i].is_autonomous(), expected[i].0.is_some());
    }
    let copy = commands[1].clone();
    assert_eq!(copy.command, commands[1].command);
    assert_eq!(copy.cooldown, 30_000);
    assert_eq!(copy.kind, CommandKind::HighLow);
}

#[test]
fn master_control_listens_to_master_and_self() {
    assert!(matches(CommandKind::MasterControl, data("master", "<@!42> start")));
    assert!(matches(CommandKind::MasterControl, data("42", "<@!42> stop")));
    assert!(matches(CommandKind::MasterControl, data("42", "<@!42> ")));
    assert!(!matches(CommandKind::MasterControl, data("42", "<@!42>")));
    assert!(!matches(CommandKind::MasterControl, data("42", "<@!43> start")));
    assert!(!matches(CommandKind::MasterControl, data("42", " <@!42> start")));
    assert!(!matches(CommandKind::MasterControl, data(PEPE_ID, "<@!42> start")));
    let mut c = client();
    c.master_id = None;
    let message = DiscordMessage::new(data("master", "<@!42> start"), &c).unwrap();
    assert!(!Command::of_kind(CommandKind::MasterControl).matches(&message));
}

#[test]
fn games_answer_replies_of_pepe() {
    let mut hl = reply_to("pls hl", data(PEPE_ID, ""));
    hl.embeds = vec![embed(None, Some("bot's High-Low game"), Some("**5**"))];
    assert!(matches(CommandKind::HighLow, hl));
    let mut hl = reply_to("pls hl", data("someone", ""));
    hl.embeds = vec![embed(None, Some("bot's High-Low game"), None)];
    assert!(!matches(CommandKind::HighLow, hl));
    let mut hl = reply_to("pls hunt", data(PEPE_ID, ""));
    hl.embeds = vec![embed(None, Some("bot's High-Low game"), None)];
    assert!(!matches(CommandKind::HighLow, hl));
    let mut hl = reply_to("pls hl", data(PEPE_ID, ""));
    hl.embeds = vec![embed(Some("high-low"), Some("other"), Some("high-low"))];
    assert!(!matches(CommandKind::HighLow, hl));

    assert!(matches(CommandKind::Hunt, reply_to("pls hunt", data(PEPE_ID, "Dodge the Fireball\n"))));
    assert!(!matches(CommandKind::Hunt, reply_to("pls hunt", data(PEPE_ID, "dodge the fireball"))));
    assert!(!matches(CommandKind::Hunt, reply_to("pls fish", data(PEPE_ID, "Dodge the Fireball"))));
    assert!(!matches(CommandKind::Hunt, data(PEPE_ID, "Dodge the Fireball")));
    assert!(matches(CommandKind::Fish, reply_to("pls fish", data(PEPE_ID, "Catch the fish!\n"))));
    assert!(!matches(CommandKind::Fish, reply_to("pls fish", data(PEPE_ID, "Catch the fish"))));
    assert!(!matches(CommandKind::Fish, reply_to("pls fish", data("x", "Catch the fish!"))));

    let mut trivia = reply_to("pls trivia", data(PEPE_ID, ""));
    trivia.embeds = vec![embed(None, Some("bot's Trivia Question"), None)];
    assert!(matches(CommandKind::Trivia, trivia));
    assert!(!matches(CommandKind::Trivia, reply_to("pls trivia", data(PEPE_ID, ""))));
    let mut pm = reply_to("pls pm", data(PEPE_ID, ""));
    pm.embeds = vec![embed(None, Some("bot's meme posting session"), None)];
    assert!(matches(CommandKind::PostMemes, pm));
    let mut pm = reply_to("pls pm", data(PEPE_ID, ""));
    pm.embeds = vec![embed(None, Some("bot's trivia question"), None)];
    assert!(!matches(CommandKind::PostMemes, pm));
}

#[test]
fn silent_descriptors_answer_nothing() {
    for kind in [CommandKind::Dig, CommandKind::Beg, CommandKind::DepositAll, CommandKind::Daily] {
        let mut d = reply_to("pls dig", data(PEPE_ID, "Soccer"));
        d.embeds = vec![embed(Some("bot"), Some("bot"), Some("bot"))];
        assert!(!matches(kind, d));
    }
}

#[test]
fn stream_and_pet_look_for_the_own_name() {
    let mut stream = data(PEPE_ID, "");
    stream.embeds = vec![embed(None, Some("BOT's stream manager"), None)];
    assert!(matches(CommandKind::Stream, stream));
    let mut stream = data(PEPE_ID, "");
    stream.embeds = vec![embed(None, Some("other's stream manager"), None)];
    assert!(!matches(CommandKind::Stream, stream));
    let mut stream = data("someone", "");
    stream.embeds = vec![embed(None, Some("bot's stream manager"), None)];
    assert!(!matches(CommandKind::Stream, stream));

    let mut pet = data(PEPE_ID, "");
    pet.embeds = vec![embed(Some("Bot's pet"), None, None)];
    pet.components = vec![row(vec![button(Some("Feed"), false)])];
    assert!(matches(CommandKind::Pet, pet));
    let mut pet = data(PEPE_ID, "");
    pet.embeds = vec![embed(Some("Bot's pet"), None, None)];
    pet.components = vec![row(vec![button(Some("feed"), false)])];
    assert!(!matches(CommandKind::Pet, pet));
    let mut pet = data(PEPE_ID, "");
    pet.embeds = vec![embed(Some("Bot's pet"), None, None)];
    pet.components = vec![row(vec![button(None, false)])];
    assert!(!matches(CommandKind::Pet, pet));
    let mut pet = data(PEPE_ID, "");
    pet.embeds = vec![embed(Some("Bot's pet"), None, None)];
    assert!(!matches(CommandKind::Pet, pet));
    let mut pet = data(PEPE_ID, "");
    pet.embeds = vec![embed(Some("Other's pet"), None, None)];
    pet.components = vec![row(vec![button(Some("Feed"), false)])];
    assert!(!matches(CommandKind::Pet, pet));
}

#[test]
fn mini_games_are_known_by_their_content() {
    let cases = [
        (CommandKind::WordOrder, "x Remember words order! y"),
        (CommandKind::EmojiMatch, "x Emoji Match y"),
        (CommandKind::Soccer, "x Soccer y"),
        (CommandKind::ColorMatch, "x Color Match y"),
        (CommandKind::Dunk, "x Dunk the ball! y"),
    ];
    for (kind, content) in cases {
        assert!(matches(kind, data(PEPE_ID, content)));
        assert!(!matches(kind, data("someone", content)));
        assert!(!matches(kind, data(PEPE_ID, &content.to_lowercase())));
        assert!(!matches(kind, data(PEPE_ID, "nothing")));
    }
}

#[test]
fn events_need_their_components() {
    let mut boss = data(PEPE_ID, "Attack the boss now");
    boss.components = vec![row(vec![button(None, true)])];
    assert!(matches(CommandKind::AttackBoss, boss));
    assert!(!matches(CommandKind::AttackBoss, data(PEPE_ID, "Attack the boss now")));
    let mut boss = data(PEPE_ID, "now Attack the boss");
    boss.components = vec![row(vec![button(None, true)])];
    assert!(!matches(CommandKind::AttackBoss, boss));

    let five = || row(vec![
        button(None, false),
        button(None, false),
        button(None, false),
        button(None, false),
        button(None, false),
    ]);
    let mut night = data(PEPE_ID, "");
    night.embeds = vec![embed(None, None, Some("you have 15 SECONDS to answer!"))];
    night.components = vec![five()];
    assert!(matches(CommandKind::TriviaNight, night));
    let mut night = data(PEPE_ID, "");
    night.embeds = vec![embed(None, None, Some("You have 15 seconds to answer"))];
    night.components = vec![row(vec![button(None, false)])];
    assert!(!matches(CommandKind::TriviaNight, night));
    let mut night = data(PEPE_ID, "");
    night.embeds = vec![embed(None, None, Some("You have 10 seconds to answer"))];
    night.components = vec![five()];
    assert!(!matches(CommandKind::TriviaNight, night));
}

#[test]
fn route_finds_every_match_in_registry_order() {
    let commands = get_commands();
    let both = context(data(PEPE_ID, "Soccer with Color Match and Emoji Match"));
    assert_eq!(route(&commands, &both), vec![13, 14, 15]);
    assert_eq!(route(&commands, &context(data(PEPE_ID, "Dunk the ball!"))), vec![16]);
    assert_eq!(route(&commands, &context(data(PEPE_ID, "nothing"))), Vec::<usize>::new());
    assert_eq!(route(&commands, &context(data("42", "<@!42> say Soccer"))), vec![0]);
    assert_eq!(route(&vec![], &both), Vec::<usize>::new());
    let twice = vec![
        Command::of_kind(CommandKind::Soccer),
        Command::of_kind(CommandKind::Dig),
        Command::of_kind(CommandKind::Soccer),
    ];
    assert_eq!(route(&twice, &both), vec![0, 2]);
}

#[test]
fn failure_of_one_handler_leaves_the_other_alone() {
    let commands = get_commands();
    let message = context(data(
        PEPE_ID,
        "Soccer and Color Match\n<:Red:1> `apple`\n<:Green:2> `tree`\n<:Blue:3> `sky`",
    ));
    let found = route(&commands, &message);
    assert_eq!(found, vec![14, 15]);
    let mut first = HandlerRun::new(commands[found[0]].kind);
    let mut second = HandlerRun::new(commands[found[1]].kind);
    assert_eq!(as_click(first.advance(&message, &vec![], 0).unwrap()), click(Target::Trigger, 0, 0));
    assert!(matches!(second.advance(&message, &vec![], 0).unwrap(), Step::Await));
    assert_eq!(second.phase, 1);
    let short = context(data(PEPE_ID, "Soccer and Color Match"));
    let mut failing = HandlerRun::new(CommandKind::Soccer);
    assert_eq!(failing.advance(&short, &vec![], 0).unwrap_err(), HandlerError::MissingLine);
    assert_eq!(failing.phase, 0);
    let mut update = data(PEPE_ID, "<@!42> which color was next to `tree`?");
    update.components = vec![];
    let mut trigger = data(
        PEPE_ID,
        "Soccer and Color Match\n<:Red:1> `apple`\n<:Green:2> `tree`\n<:Blue:3> `sky`",
    );
    trigger.components = vec![row(vec![
        button(Some("Red"), false),
        button(Some("Green"), false),
        button(Some("Blue"), false),
    ])];
    let trigger = context(trigger);
    let updates = vec![context(update)];
    assert_eq!(
        as_click(second.advance(&trigger, &updates, 0).unwrap()),
        click(Target::Trigger, 0, 1)
    );
    assert!(matches!(second.advance(&trigger, &updates, 0).unwrap(), Step::Finish));
}

#[test]
fn master_commands() {
    let step = first_step(CommandKind::MasterControl, data("master", "<@!42> start"), 0).unwrap();
    match step {
        Step::Signal(signal) => {
            assert_eq!(signal.command, MasterCommandType::Start);
            assert_eq!(signal.tag, Some("chan".to_string()));
        }
        other => panic!("unexpected step {:?}", other),
    }
    let step = first_step(CommandKind::MasterControl, data("master", "<@!42> stop now"), 0).unwrap();
    match step {
        Step::Signal(signal) => {
            assert_eq!(signal.command, MasterCommandType::Stop);
            assert_eq!(signal.tag, None);
        }
        other => panic!("unexpected step {:?}", other),
    }
    let step =
        first_step(CommandKind::MasterControl, data("master", "<@!42> say hello  world"), 0).unwrap();
    match step {
        Step::Send { on, content } => {
            assert_eq!(on, Target::Trigger);
            assert_eq!(content, "hello  world");
        }
        other => panic!("unexpected step {:?}", other),
    }
    let step = first_step(CommandKind::MasterControl, data("master", "<@!42> say"), 0).unwrap();
    match step {
        Step::Send { content, .. } => assert_eq!(content, ""),
        other => panic!("unexpected step {:?}", other),
    }
    let step = first_step(CommandKind::MasterControl, data("master", "<@!42> dance"), 0).unwrap();
    match step {
        Step::Reply { content } => assert_eq!(content, ":pleading_face:"),
        other => panic!("unexpected step {:?}", other),
    }
    let step = first_step(CommandKind::MasterControl, data("master", "<@!42> "), 0).unwrap();
    match step {
        Step::Reply { content } => assert_eq!(content, ":pleading_face:"),
        other => panic!("unexpected step {:?}", other),
    }
    assert!(matches!(
        first_step(CommandKind::MasterControl, data("master", "<@!42>"), 0).unwrap(),
        Step::Finish
    ));
    let message = context(data("master", "<@!42> start"));
    let mut run = HandlerRun::new(CommandKind::MasterControl);
    assert!(matches!(run.advance(&message, &vec![], 0).unwrap(), Step::Signal(_)));
    assert_eq!(run.phase, 1);
    assert!(matches!(run.advance(&message, &vec![], 0).unwrap(), Step::Finish));
    assert_eq!(run.phase, 1);
}

#[test]
fn high_low_goes_by_the_number_in_bold() {
    let with = |description: Option<&str>| {
        let mut d = data(PEPE_ID, "");
        d.embeds = vec![embed(None, Some("high-low"), description)];
        first_step(CommandKind::HighLow, d, 0)
    };
    let hint = "I just chose a secret number between 1 and 100.\nIs it higher or lower than **";
    assert_eq!(as_click(with(Some(&format!("{}42**?", hint))).unwrap()), click(Target::Trigger, 0, 2));
    assert_eq!(as_click(with(Some("**50**")).unwrap()), click(Target::Trigger, 0, 2));
    assert_eq!(as_click(with(Some("**51**")).unwrap()), click(Target::Trigger, 0, 0));
    assert_eq!(as_click(with(Some("**0**")).unwrap()), click(Target::Trigger, 0, 2));
    assert_eq!(as_click(with(Some("x **99** y **1**")).unwrap()), click(Target::Trigger, 0, 0));
    assert_eq!(as_click(with(Some("**a** **7**")).unwrap()), click(Target::Trigger, 0, 2));
    assert_eq!(with(Some("**256**")).unwrap_err(), HandlerError::NoNumber);
    assert_eq!(with(Some("no number")).unwrap_err(), HandlerError::NoNumber);
    assert_eq!(with(Some("*42*")).unwrap_err(), HandlerError::NoNumber);
    assert_eq!(with(Some("**٤٢**")).unwrap_err(), HandlerError::NoNumber);
    assert_eq!(with(None).unwrap_err(), HandlerError::NoDescription);
    assert_eq!(
        first_step(CommandKind::HighLow, data(PEPE_ID, "**42**"), 0).unwrap_err(),
        HandlerError::NoDescription
    );
}

#[test]
fn high_low_choice_from_a_captured_number() {
    assert_eq!(high_low_choice(Some("1")), Ok(2));
    assert_eq!(high_low_choice(Some("50")), Ok(2));
    assert_eq!(high_low_choice(Some("51")), Ok(0));
    assert_eq!(high_low_choice(Some("100")), Ok(0));
    assert_eq!(high_low_choice(Some("255")), Ok(0));
    assert_eq!(high_low_choice(Some("256")), Err(HandlerError::NoNumber));
    assert_eq!(high_low_choice(Some("")), Err(HandlerError::NoNumber));
    assert_eq!(high_low_choice(Some("**42**")), Err(HandlerError::NoNumber));
    assert_eq!(high_low_choice(None), Err(HandlerError::NoNumber));
}

#[test]
fn hunt_dodges_the_fireball() {
    let at = |content: &str| first_step(CommandKind::Hunt, data(PEPE_ID, content), 0);
    assert_eq!(
        as_click(at("Dodge the Fireball\nline\n       fire").unwrap()),
        click(Target::Trigger, 0, 0)
    );
    assert_eq!(
        as_click(at("Dodge the Fireball\nline\n              fire").unwrap()),
        click(Target::Trigger, 0, 0)
    );
    assert_eq!(
        as_click(at("Dodge the Fireball\nline\nfire").unwrap()),
        click(Target::Trigger, 0, 1)
    );
    assert_eq!(
        as_click(at("Dodge the Fireball\nline\n      fire").unwrap()),
        click(Target::Trigger, 0, 1)
    );
    assert_eq!(at("Dodge the Fireball\nline").unwrap_err(), HandlerError::MissingLine);
}

#[test]
fn fish_and_dunk_click_below_the_object() {
    let fish = |content: &str| first_step(CommandKind::Fish, data(PEPE_ID, content), 0);
    assert_eq!(as_click(fish("Catch the fish!\nfish").unwrap()), click(Target::Trigger, 0, 0));
    assert_eq!(as_click(fish("Catch the fish!\n       fish").unwrap()), click(Target::Trigger, 0, 1));
    assert_eq!(
        as_click(fish("Catch the fish!\n              fish").unwrap()),
        click(Target::Trigger, 0, 2)
    );
    assert_eq!(
        as_click(fish("Catch the fish!\n             fish").unwrap()),
        click(Target::Trigger, 0, 1)
    );
    assert_eq!(fish("Catch the fish!").unwrap_err(), HandlerError::MissingLine);
    let dunk = |content: &str| first_step(CommandKind::Dunk, data(PEPE_ID, content), 0);
    assert_eq!(as_click(dunk("Dunk the ball!\nx\nball").unwrap()), click(Target::Trigger, 0, 0));
    assert_eq!(
        as_click(dunk("Dunk the ball!\n              x\n       ball").unwrap()),
        click(Target::Trigger, 0, 1)
    );
    assert_eq!(
        as_click(dunk("Dunk the ball!\nx\n               ball").unwrap()),
        click(Target::Trigger, 0, 2)
    );
    assert_eq!(dunk("Dunk the ball!\nx").unwrap_err(), HandlerError::MissingLine);
}

#[test]
fn soccer_shoots_past_the_keeper() {
    let at = |content: &str| first_step(CommandKind::Soccer, data(PEPE_ID, content), 0);
    assert_eq!(as_click(at("Soccer\ngoal\n:levitate:").unwrap()), click(Target::Trigger, 0, 1));
    assert_eq!(as_click(at("Soccer\ngoal\n   :levitate:").unwrap()), click(Target::Trigger, 0, 0));
    assert_eq!(at("Soccer\n:levitate:").unwrap_err(), HandlerError::MissingLine);
}

#[test]
fn silent_descriptors_do_nothing() {
    for kind in [CommandKind::Dig, CommandKind::Beg, CommandKind::DepositAll, CommandKind::Daily] {
        let mut run = HandlerRun::new(kind);
        let message = context(data(PEPE_ID, "x"));
        assert_eq!(run.pick_bound(&message, &vec![]), 0);
        assert!(matches!(run.advance(&message, &vec![], 3).unwrap(), Step::Finish));
        assert_eq!(run.phase, 0);
    }
}

#[test]
fn trivia_clicks_what_chance_picked() {
    let message = context(data(PEPE_ID, "x"));
    let mut run = HandlerRun::new(CommandKind::Trivia);
    assert_eq!(run.pick_bound(&message, &vec![]), 4);
    assert_eq!(as_click(run.advance(&message, &vec![], 3).unwrap()), click(Target::Trigger, 0, 3));
    assert_eq!(run.pick_bound(&message, &vec![]), 0);
    assert!(matches!(run.advance(&message, &vec![], 3).unwrap(), Step::Finish));
    let mut night = HandlerRun::new(CommandKind::TriviaNight);
    assert_eq!(night.pick_bound(&message, &vec![]), 0);
    assert_eq!(as_click(night.advance(&message, &vec![], 3).unwrap()), click(Target::Trigger, 0, 0));
    assert!(matches!(night.advance(&message, &vec![], 3).unwrap(), Step::Finish));
}

#[test]
fn pet_is_fed_washed_played_with_and_left() {
    let message = context(data(PEPE_ID, "x"));
    let mut run = HandlerRun::new(CommandKind::Pet);
    let mut clicks = vec![];
    for _ in 0..4 {
        clicks.push(as_click(run.advance(&message, &vec![], 9).unwrap()));
    }
    assert_eq!(
        clicks,
        vec![
            click(Target::Trigger, 0, 0),
            click(Target::Trigger, 0, 1),
            click(Target::Trigger, 0, 2),
            click(Target::Trigger, 1, 4)
        ]
    );
    assert!(matches!(run.advance(&message, &vec![], 9).unwrap(), Step::Finish));
    assert!(matches!(run.advance(&message, &vec![], 9).unwrap(), Step::Finish));
}

#[test]
fn post_memes_buys_a_laptop_when_it_broke() {
    let message = context(data(PEPE_ID, "x"));
    let mut run = HandlerRun::new(CommandKind::PostMemes);
    assert_eq!(run.pick_bound(&message, &vec![]), 5);
    assert_eq!(as_click(run.advance(&message, &vec![], 4).unwrap()), click(Target::Trigger, 0, 4));
    assert!(matches!(run.advance(&message, &vec![], 0).unwrap(), Step::Await));
    assert_eq!(run.advance(&message, &vec![], 0).unwrap_err(), HandlerError::MissingUpdate);
    let mut broken = data(PEPE_ID, "");
    broken.embeds = vec![embed(None, None, Some("Oh no, your **laptop** is BROKEN"))];
    let updates = vec![context(broken)];
    match run.advance(&message, &updates, 0).unwrap() {
        Step::Send { on, content } => {
            assert_eq!(on, Target::Update(0));
            assert_eq!(content, "pls buy laptop");
        }
        other => panic!("unexpected step {:?}", other),
    }
    assert!(matches!(run.advance(&message, &updates, 0).unwrap(), Step::Finish));

    let mut fine = data(PEPE_ID, "");
    fine.embeds = vec![embed(None, None, Some("Your meme got 5 likes"))];
    let mut run = HandlerRun { kind: CommandKind::PostMemes, phase: 2 };
    assert!(matches!(run.advance(&message, &vec![context(fine)], 0).unwrap(), Step::Finish));
    assert_eq!(run.phase, 2);
}

#[test]
fn boss_is_attacked_while_the_button_is_enabled() {
    let mut d = data(PEPE_ID, "Attack the boss");
    d.components = vec![row(vec![button(Some("attack"), false)])];
    let message = context(d);
    let enabled = || {
        let mut u = data(PEPE_ID, "Attack the boss");
        u.components = vec![row(vec![button(Some("attack"), false)])];
        context(u)
    };
    let disabled = || {
        let mut u = data(PEPE_ID, "Attack the boss");
        u.components = vec![row(vec![button(Some("attack"), true)])];
        context(u)
    };
    let mut run = HandlerRun::new(CommandKind::AttackBoss);
    let mut updates = vec![];
    assert_eq!(as_click(run.advance(&message, &updates, 0).unwrap()), click(Target::Trigger, 0, 0));
    assert!(matches!(run.advance(&message, &updates, 0).unwrap(), Step::Await));
    assert_eq!(run.advance(&message, &updates, 0).unwrap_err(), HandlerError::MissingUpdate);
    updates.push(enabled());
    assert_eq!(as_click(run.advance(&message, &updates, 0).unwrap()), click(Target::Trigger, 0, 0));
    assert!(matches!(run.advance(&message, &updates, 0).unwrap(), Step::Await));
    updates.push(disabled());
    assert!(matches!(run.advance(&message, &updates, 0).unwrap(), Step::Finish));
    assert_eq!(run.phase, 4);
    updates.pop();
    updates.push(context(data(PEPE_ID, "The boss is gone")));
    assert!(matches!(run.advance(&message, &updates, 0).unwrap(), Step::Finish));
    let mut last = HandlerRun { kind: CommandKind::AttackBoss, phase: usize::MAX };
    assert!(matches!(last.advance(&message, &updates, 0).unwrap(), Step::Finish));
}

#[test]
fn stream_goes_live() {
    let mut d = data(PEPE_ID, "");
    d.components = vec![row(vec![button(Some("Go Live"), false)])];
    let message = context(d);
    let mut menu = button(None, false);
    menu.component_type = ComponentType::SelectMenu;
    menu.options = vec![
        ComponentOption { value: "a".to_string(), label: "A".to_string() },
        ComponentOption { value: "b".to_string(), label: "B".to_string() },
        ComponentOption { value: "c".to_string(), label: "C".to_string() },
    ];
    let mut games = data(PEPE_ID, "");
    games.components = vec![row(vec![menu])];
    let mut ending = data(PEPE_ID, "");
    ending.components = vec![
        row(vec![button(None, false)]),
        row(vec![button(None, false), button(None, false)]),
    ];

    let mut run = HandlerRun::new(CommandKind::Stream);
    let mut updates = vec![];
    assert_eq!(run.pick_bound(&message, &updates), 0);
    assert_eq!(as_click(run.advance(&message, &updates, 0).unwrap()), click(Target::Trigger, 0, 0));
    assert!(matches!(run.advance(&message, &updates, 0).unwrap(), Step::Await));
    assert_eq!(run.advance(&message, &updates, 0).unwrap_err(), HandlerError::MissingUpdate);
    updates.push(context(games));
    assert_eq!(run.pick_bound(&message, &updates), 3);
    match run.advance(&message, &updates, 2).unwrap() {
        Step::Select { on, row, option } => {
            assert_eq!((on, row, option), (Target::Update(0), 0, 2));
        }
        other => panic!("unexpected step {:?}", other),
    }
    assert!(matches!(run.advance(&message, &updates, 0).unwrap(), Step::Await));
    updates.push(context(data(PEPE_ID, "second")));
    assert_eq!(as_click(run.advance(&message, &updates, 0).unwrap()), click(Target::Update(1), 1, 0));
    assert!(matches!(run.advance(&message, &updates, 0).unwrap(), Step::Await));
    updates.push(context(data(PEPE_ID, "third")));
    assert_eq!(run.pick_bound(&message, &updates), 3);
    assert_eq!(
        as_click(run.advance(&message, &updates, 1).unwrap()),
        (Target::Update(2), 0, 1, true)
    );
    assert!(matches!(run.advance(&message, &updates, 0).unwrap(), Step::Await));
    assert_eq!(run.advance(&message, &updates, 0).unwrap_err(), HandlerError::MissingUpdate);
    updates.push(context(ending));
    assert_eq!(as_click(run.advance(&message, &updates, 0).unwrap()), click(Target::Update(2), 1, 1));
    assert!(matches!(run.advance(&message, &updates, 0).unwrap(), Step::Finish));

    let mut run = HandlerRun { kind: CommandKind::Stream, phase: 8 };
    updates.pop();
    updates.push(context(data(PEPE_ID, "fourth")));
    assert_eq!(as_click(run.advance(&message, &updates, 0).unwrap()), click(Target::Update(2), 0, 2));
    let mut run = HandlerRun { kind: CommandKind::Stream, phase: 2 };
    let none = vec![context(data(PEPE_ID, "no menu"))];
    assert_eq!(run.pick_bound(&message, &none), 0);
    assert_eq!(run.advance(&message, &none, 0).unwrap_err(), HandlerError::MissingComponent);
}

#[test]
fn stream_other_first_buttons() {
    let with = |label: Option<&str>, disabled: bool| {
        let mut d = data(PEPE_ID, "");
        d.components = vec![row(vec![button(label, disabled)])];
        context(d)
    };
    let mut run = HandlerRun::new(CommandKind::Stream);
    let message = with(Some("Go Live"), true);
    assert_eq!(as_click(run.advance(&message, &vec![], 1).unwrap()), click(Target::Trigger, 0, 2));
    assert!(matches!(run.advance(&message, &vec![], 1).unwrap(), Step::Finish));

    let mut run = HandlerRun::new(CommandKind::Stream);
    let message = with(Some("Run AD"), false);
    assert_eq!(run.pick_bound(&message, &vec![]), 3);
    assert_eq!(as_click(run.advance(&message, &vec![], 2).unwrap()), click(Target::Trigger, 0, 2));
    assert_eq!(as_click(run.advance(&message, &vec![], 2).unwrap()), click(Target::Trigger, 1, 1));
    assert!(matches!(run.advance(&message, &vec![], 2).unwrap(), Step::Finish));

    let mut run = HandlerRun::new(CommandKind::Stream);
    let message = with(Some("Run AD"), true);
    assert_eq!(run.pick_bound(&message, &vec![]), 0);
    assert_eq!(as_click(run.advance(&message, &vec![], 2).unwrap()), click(Target::Trigger, 1, 1));
    assert!(matches!(run.advance(&message, &vec![], 2).unwrap(), Step::Finish));

    let mut run = HandlerRun::new(CommandKind::Stream);
    assert!(matches!(run.advance(&with(Some("Other"), false), &vec![], 0).unwrap(), Step::Finish));
    assert_eq!(
        run.advance(&with(None, false), &vec![], 0).unwrap_err(),
        HandlerError::MissingLabel
    );
    assert!(matches!(
        run.advance(&context(data(PEPE_ID, "")), &vec![], 0).unwrap(),
        Step::Finish
    ));
}

#[test]
fn words_are_clicked_in_order() {
    let message = context(data(PEPE_ID, "Remember words order!\n`alpha`\n`beta`\n`gamma`"));
    let mut update = data(PEPE_ID, "<@!42> click the words in order");
    update.components = vec![row(vec![
        button(Some("gamma"), false),
        button(Some("alpha"), false),
        button(Some("beta"), false),
    ])];
    let updates = vec![context(update)];
    let mut run = HandlerRun::new(CommandKind::WordOrder);
    assert!(matches!(run.advance(&message, &vec![], 0).unwrap(), Step::Await));
    assert_eq!(run.advance(&message, &vec![], 0).unwrap_err(), HandlerError::MissingUpdate);
    assert_eq!(as_click(run.advance(&message, &updates, 0).unwrap()), click(Target::Update(0), 0, 1));
    assert_eq!(as_click(run.advance(&message, &updates, 0).unwrap()), click(Target::Update(0), 0, 2));
    assert_eq!(as_click(run.advance(&message, &updates, 0).unwrap()), click(Target::Update(0), 0, 0));
    assert!(matches!(run.advance(&message, &updates, 0).unwrap(), Step::Finish));
    assert_eq!(run.phase, 4);
}

#[test]
fn words_of_another_player_are_left_alone() {
    let message = context(data(PEPE_ID, "Remember words order!\n`alpha`"));
    let mut update = data(PEPE_ID, "<@!43> click the words in order");
    update.components = vec![row(vec![button(Some("alpha"), false)])];
    let mut run = HandlerRun { kind: CommandKind::WordOrder, phase: 1 };
    assert!(matches!(run.advance(&message, &vec![context(update)], 0).unwrap(), Step::Finish));
}

#[test]
fn word_order_failures() {
    let message = context(data(PEPE_ID, "Remember words order!\n`alpha`\n`beta`"));
    let with = |buttons: Option<Vec<MessageComponent>>| {
        let mut update = data(PEPE_ID, "<@!42> go");
        update.components = buttons.into_iter().map(row).collect();
        vec![context(update)]
    };
    let mut run = HandlerRun { kind: CommandKind::WordOrder, phase: 1 };
    assert_eq!(run.advance(&message, &with(None), 0).unwrap_err(), HandlerError::MissingRow);
    assert_eq!(
        run.advance(&message, &with(Some(vec![button(Some("beta"), false)])), 0).unwrap_err(),
        HandlerError::NoSuchButton
    );
    assert_eq!(
        run.advance(&message, &with(Some(vec![button(None, false), button(Some("alpha"), false)])), 0)
            .unwrap_err(),
        HandlerError::MissingLabel
    );
    assert_eq!(
        as_click(
            run.advance(&message, &with(Some(vec![button(Some("alpha"), false), button(None, false)])), 0)
                .unwrap()
        ),
        click(Target::Update(0), 0, 0)
    );
    let wordless = context(data(PEPE_ID, "Remember words order!"));
    let mut run = HandlerRun { kind: CommandKind::WordOrder, phase: 1 };
    assert_eq!(run.advance(&wordless, &with(None), 0).unwrap_err(), HandlerError::MissingRow);
    assert!(matches!(run.advance(&wordless, &with(Some(vec![])), 0).unwrap(), Step::Finish));
}

#[test]
fn emoji_is_found_among_two_rows_of_five() {
    let names = ["a", "b", "c", "d", "e", "f", "g", "h", "i", "j"];
    let update_with = || {
        let mut update = data(PEPE_ID, "<@!42> which one?");
        update.components = vec![
            row(names[..5].iter().map(|n| emoji_button(Some(n))).collect()),
            row(names[5..].iter().map(|n| emoji_button(Some(n))).collect()),
        ];
        vec![context(update)]
    };
    let expected = [(0, 0), (0, 1), (0, 2), (0, 3), (0, 4), (1, 0), (1, 1), (1, 2), (1, 3), (1, 4)];
    for (i, name) in names.iter().enumerate() {
        let message = context(data(PEPE_ID, &format!("Emoji Match\n{}", name)));
        let mut run = HandlerRun::new(CommandKind::EmojiMatch);
        assert!(matches!(run.advance(&message, &vec![], 0).unwrap(), Step::Await));
        assert_eq!(
            as_click(run.advance(&message, &update_with(), 0).unwrap()),
            click(Target::Update(0), expected[i].0, expected[i].1)
        );
        assert!(matches!(run.advance(&message, &update_with(), 0).unwrap(), Step::Finish));
    }
}

#[test]
fn emoji_rows_of_other_lengths_are_counted_through() {
    let message = context(data(PEPE_ID, "Emoji Match\nx"));
    let at = |first: usize, second: usize, place: usize| {
        let mut update = data(PEPE_ID, "<@!42> which one?");
        let mut all: Vec<MessageComponent> =
            (0..first + second).map(|_| emoji_button(Some("o"))).collect();
        all[place] = emoji_button(Some("x"));
        let tail = all.split_off(first);
        update.components = vec![row(all), row(tail)];
        let mut run = HandlerRun { kind: CommandKind::EmojiMatch, phase: 1 };
        as_click(run.advance(&message, &vec![context(update)], 0).unwrap())
    };
    assert_eq!(at(3, 4, 3), click(Target::Update(0), 0, 3));
    assert_eq!(at(3, 4, 4), click(Target::Update(0), 0, 4));
    assert_eq!(at(3, 4, 5), click(Target::Update(0), 1, 0));
    assert_eq!(at(7, 6, 6), click(Target::Update(0), 1, 1));
    assert_eq!(at(7, 6, 12), click(Target::Update(0), 1, 2));
    assert_eq!(at(0, 11, 10), click(Target::Update(0), 1, 0));
}

#[test]
fn emoji_match_failures() {
    let mut run = HandlerRun::new(CommandKind::EmojiMatch);
    assert_eq!(
        run.advance(&context(data(PEPE_ID, "Emoji Match")), &vec![], 0).unwrap_err(),
        HandlerError::MissingLine
    );
    let message = context(data(PEPE_ID, "Emoji Match\nx"));
    let with = |content: &str, rows: Vec<Vec<MessageComponent>>| {
        let mut update = data(PEPE_ID, content);
        update.components = rows.into_iter().map(row).collect();
        vec![context(update)]
    };
    let mut run = HandlerRun { kind: CommandKind::EmojiMatch, phase: 1 };
    assert_eq!(run.advance(&message, &vec![], 0).unwrap_err(), HandlerError::MissingUpdate);
    assert!(matches!(
        run.advance(&message, &with("<@!1> no", vec![]), 0).unwrap(),
        Step::Finish
    ));
    assert_eq!(
        run.advance(&message, &with("<@!42> yes", vec![vec![emoji_button(Some("x"))]]), 0).unwrap_err(),
        HandlerError::MissingRow
    );
    assert_eq!(
        run.advance(&message, &with("<@!42> yes", vec![vec![emoji_button(Some("o"))], vec![]]), 0)
            .unwrap_err(),
        HandlerError::NoSuchButton
    );
    assert_eq!(
        run.advance(
            &message,
            &with("<@!42> yes", vec![vec![emoji_button(Some("o"))], vec![emoji_button(None)]]),
            0
        )
        .unwrap_err(),
        HandlerError::MissingEmoji
    );
}

#[test]
fn color_match_choice_reads_the_three_lines() {
    let text = lines(&[
        "Color Match",
        "<:Red:1> `apple`",
        "<:GREEN:2> `tree`",
        "<:blue:3> `sky`",
        "<:Pink:4> `late`",
    ]);
    let buttons = vec![
        button(Some("Blue"), false),
        button(Some("GREEN"), false),
        button(Some("red"), false),
    ];
    assert_eq!(color_match_choice(&text, &buttons, "apple"), Ok(2));
    assert_eq!(color_match_choice(&text, &buttons, "tree"), Ok(1));
    assert_eq!(color_match_choice(&text, &buttons, "sky"), Ok(0));
    assert_eq!(color_match_choice(&text, &buttons, "late"), Err(HandlerError::ColorNotFound));
    assert_eq!(color_match_choice(&text, &buttons, "Apple"), Err(HandlerError::ColorNotFound));
    assert_eq!(color_match_choice(&text, &buttons[..2].to_vec(), "apple"), Err(HandlerError::ButtonNotFound));
    assert_eq!(
        color_match_choice(&text, &vec![button(None, false), button(Some("red"), false)], "apple"),
        Err(HandlerError::MissingLabel)
    );
    assert_eq!(
        color_match_choice(&text, &vec![button(Some(""), false), button(Some("red"), false)], "apple"),
        Ok(1)
    );
    assert_eq!(
        color_match_choice(&lines(&["Color Match", "<:Red:1> `apple`"]), &buttons, "tree"),
        Err(HandlerError::ColorNotFound)
    );
}

#[test]
fn color_match_choice_stops_at_a_malformed_line() {
    let buttons = vec![button(Some("red"), false)];
    let bad = [
        "<:Red:1>`apple`",
        "<: `apple`",
        "<:Red:1> `",
        "<:Red:1> ",
        "<:Red:1> éapple`",
        "<:Red:1> `appleé",
    ];
    for line in bad {
        let text = lines(&["Color Match", line, "<:Red:2> `tree`", "x"]);
        assert_eq!(
            color_match_choice(&text, &buttons, "tree"),
            Err(HandlerError::MalformedColorLine)
        );
        let text = lines(&["Color Match", "<:Red:2> `tree`", line, "x"]);
        assert_eq!(color_match_choice(&text, &buttons, "tree"), Ok(0));
    }
    let text = lines(&["Color Match", "<:Red:1> 'a b'", "<:Red:2> ``", "<:Red:3> xéy"]);
    assert_eq!(color_match_choice(&text, &buttons, "a b"), Ok(0));
    assert_eq!(color_match_choice(&text, &buttons, ""), Ok(0));
    assert_eq!(color_match_choice(&text, &buttons, "é"), Ok(0));
}

#[test]
fn color_match_run() {
    let mut d = data(PEPE_ID, "Color Match\n<:Red:1> `apple`\n<:Green:2> `tree`\n<:Blue:3> `sky`");
    d.components = vec![row(vec![
        button(Some("Red"), false),
        button(Some("Green"), false),
        button(Some("Blue"), false),
    ])];
    let message = context(d);
    let asks = |content: &str| vec![context(data(PEPE_ID, content))];
    let mut run = HandlerRun::new(CommandKind::ColorMatch);
    assert!(matches!(run.advance(&message, &vec![], 0).unwrap(), Step::Await));
    assert_eq!(run.advance(&message, &vec![], 0).unwrap_err(), HandlerError::MissingUpdate);
    assert_eq!(
        run.advance(&message, &asks("<@!42> no word here"), 0).unwrap_err(),
        HandlerError::NoWord
    );
    assert_eq!(
        run.advance(&message, &asks("<@!42> what was next to `moon`?"), 0).unwrap_err(),
        HandlerError::ColorNotFound
    );
    assert_eq!(
        as_click(run.advance(&message, &asks("<@!42> what was next to `sky`?"), 0).unwrap()),
        click(Target::Trigger, 0, 2)
    );
    assert!(matches!(run.advance(&message, &vec![], 0).unwrap(), Step::Finish));

    let mut run = HandlerRun { kind: CommandKind::ColorMatch, phase: 1 };
    assert!(matches!(
        run.advance(&message, &asks("<@!7> what was next to `sky`?"), 0).unwrap(),
        Step::Finish
    ));
    let bare = context(data(PEPE_ID, "Color Match\n<:Red:1> `apple`\n<:Green:2> `tree`\nx"));
    assert_eq!(
        run.advance(&bare, &asks("<@!42> `apple`"), 0).unwrap_err(),
        HandlerError::MissingRow
    );
    let mut run = HandlerRun::new(CommandKind::ColorMatch);
    assert_eq!(
        run.advance(&context(data(PEPE_ID, "Color Match\na\nb")), &vec![], 0).unwrap_err(),
        HandlerError::MissingLine
    );
}

#[test]
fn failures_in_words() {
    assert_eq!(HandlerError::NoDescription.describe(), "No description");
    assert_eq!(HandlerError::NoNumber.describe(), "not a number");
    assert_eq!(HandlerError::ColorNotFound.describe(), "could not find color [1]");
    assert_eq!(HandlerError::ButtonNotFound.describe(), "could not find color [2]");
    for e in [
        HandlerError::MissingLine,
        HandlerError::MissingRow,
        HandlerError::MissingComponent,
        HandlerError::MissingLabel,
        HandlerError::MissingEmoji,
        HandlerError::NoSuchButton,
        HandlerError::MalformedColorLine,
        HandlerError::NoWord,
        HandlerError::MissingUpdate,
    ] {
        assert!(!e.describe().is_empty());
    }
}

#[test]
fn outcomes_settle_a_step() {
    let strict = Step::Click { on: Target::Trigger, row: 0, column: 0, tolerant: false };
    let tolerant = Step::Click { on: Target::Update(2), row: 0, column: 1, tolerant: true };
    let refused = StepOutcome::Refused(MessageError::ButtonOutOfBounds);
    assert_eq!(settle(&strict, StepOutcome::Done), Ok(()));
    assert_eq!(settle(&strict, refused), Err(HandlerError::Request(MessageError::ButtonOutOfBounds)));
    assert_eq!(settle(&strict, StepOutcome::Failed), Err(HandlerError::ApiFailed));
    assert_eq!(settle(&tolerant, StepOutcome::Done), Ok(()));
    assert_eq!(settle(&tolerant, refused), Ok(()));
    assert_eq!(settle(&tolerant, StepOutcome::Failed), Ok(()));
    assert_eq!(settle(&tolerant, StepOutcome::TimedOut), Err(HandlerError::TimedOut));
    assert_eq!(settle(&Step::Await, StepOutcome::TimedOut), Err(HandlerError::TimedOut));
    assert_eq!(settle(&Step::Await, StepOutcome::Done), Ok(()));
    let send = Step::Send { on: Target::Trigger, content: "x".to_string() };
    assert_eq!(settle(&send, StepOutcome::Failed), Err(HandlerError::ApiFailed));
    let reply = Step::Reply { content: "x".to_string() };
    assert_eq!(
        settle(&reply, StepOutcome::Refused(MessageError::MissingGuild)),
        Err(HandlerError::Request(MessageError::MissingGuild))
    );
    assert_eq!(
        HandlerError::Request(MessageError::RowOutOfBounds).describe(),
        "Component Row out of bounds"
    );
    assert_eq!(HandlerError::TimedOut.describe(), "timed out waiting for an update");
    assert_eq!(HandlerError::ApiFailed.describe(), "request failed");
}

#[test]
fn color_parts_of_a_line() {
    assert_eq!(read_color_parts("<:red:1>", "`apple`"), Ok(('r', "apple".to_string())));
    assert_eq!(read_color_parts("abc", "``"), Ok(('c', String::new())));
    assert_eq!(read_color_parts("abé", "xéy"), Ok(('é', "é".to_string())));
    assert_eq!(read_color_parts("ab", "`apple`"), Err(HandlerError::MalformedColorLine));
    assert_eq!(read_color_parts("", "`apple`"), Err(HandlerError::MalformedColorLine));
    assert_eq!(read_color_parts("abc", "`"), Err(HandlerError::MalformedColorLine));
    assert_eq!(read_color_parts("abc", ""), Err(HandlerError::MalformedColorLine));
    assert_eq!(read_color_parts("abc", "éa`"), Err(HandlerError::MalformedColorLine));
    assert_eq!(read_color_parts("abc", "`aé"), Err(HandlerError::MalformedColorLine));
    assert_eq!(read_color_parts("abc", "\u{7f}a\u{7f}"), Ok(('c', "a".to_string())));
    assert_eq!(read_color_parts("abc", "\u{80}a\u{7f}"), Err(HandlerError::MalformedColorLine));
}

#[test]
fn labels_begin_with_a_color() {
    assert!(label_begins_with("red", 'r'));
    assert!(label_begins_with("r", 'r'));
    assert!(!label_begins_with("Red", 'r'));
    assert!(!label_begins_with("", 'r'));
    assert!(!label_begins_with("green", 'r'));
    assert!(label_begins_with("égal", 'é'));
}

#[test]
fn routing_records_the_invocation_on_each_match() {
    let mut commands = get_commands();
    commands[16].last_called = Some(3);
    commands[2].last_called = Some(4);
    let message = context(data(PEPE_ID, "Dunk the ball! Emoji Match"));
    assert_eq!(route_and_record(&mut commands, &message, 900), vec![13, 16]);
    assert_eq!(commands.len(), 19);
    for (i, command) in commands.iter().enumerate() {
        let expected = match i {
            13 | 16 => Some(900),
            2 => Some(4),
            _ => None,
        };
        assert_eq!(command.last_called, expected);
        assert_eq!(command.kind, KINDS[i]);
    }
    assert_eq!(commands[13].command, None);
    assert_eq!(commands[16].cooldown, 0);
    let nothing = context(data("someone", "Dunk the ball!"));
    assert_eq!(route_and_record(&mut commands, &nothing, 950), Vec::<usize>::new());
    assert_eq!(commands[16].last_called, Some(900));
    let mut twice = vec![Command::of_kind(CommandKind::HighLow), Command::of_kind(CommandKind::Soccer)];
    let soccer = context(data(PEPE_ID, "Soccer"));
    assert_eq!(route_and_record(&mut twice, &soccer, 5), vec![1]);
    assert_eq!(twice[0].last_called, None);
    assert_eq!(twice[0].command, Some("pls hl".to_string()));
    assert_eq!(twice[1].last_called, Some(5));
}
