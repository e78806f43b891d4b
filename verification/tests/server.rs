use protocol::chat::ChatComponent;
use protocol::chat::ClickEvent;
use protocol::chat::HoverEvent;
use protocol::json::push_decimal;
use protocol::server::status_document;
use protocol::server::ServerConfiguration;
use protocol::server::PROTOCOL_VERSION;
use protocol::server::VERSION_NAME;

fn decimal(n: i32) -> String {
    let mut out = String::from(">");
    push_decimal(&mut out, n);
    out
}

#[test]
fn decimal_digits_of_integers() {
    assert_eq!(decimal(0), ">0");
    assert_eq!(decimal(7), ">7");
    assert_eq!(decimal(10), ">10");
    assert_eq!(decimal(20), ">20");
    assert_eq!(decimal(1234567890), ">1234567890");
    assert_eq!(decimal(i32::MAX), ">2147483647");
    assert_eq!(decimal(-1), ">-1");
    assert_eq!(decimal(-305), ">-305");
    assert_eq!(decimal(i32::MIN), ">-2147483648");
}

#[test]
fn status_document_is_put_together_from_its_parts() {
    assert_eq!(
        status_document("\"1.8.9\"", 47, 20, 0, "\"hello\""),
        "{\"version\":{\"name\":\"1.8.9\",\"protocol\":47},\"players\":{\"max\":20,\"online\":0},\"description\":{\"text\":\"hello\"}}"
    );
    assert_eq!(
        status_document("\"\"", -1, 0, 100, "\"\""),
        "{\"version\":{\"name\":\"\",\"protocol\":-1},\"players\":{\"max\":0,\"online\":100},\"description\":{\"text\":\"\"}}"
    );
}

#[test]
fn status_of_a_configuration() {
    let motd = ChatComponent::builder().text(String::from("say \"hi\"")).build();
    let config = ServerConfiguration::builder().motd(motd).max_players(64).build();
    assert_eq!(
        config.status(5).unwrap(),
        "{\"version\":{\"name\":\"1.8.9\",\"protocol\":47},\"players\":{\"max\":64,\"online\":5},\"description\":{\"text\":\"say \\\"hi\\\"\"}}"
    );
    assert_eq!(VERSION_NAME, "1.8.9");
    assert_eq!(PROTOCOL_VERSION, 47);
}

#[test]
fn configuration_defaults() {
    let motd = ChatComponent::builder().text(String::from("hello")).build();
    let config = ServerConfiguration::builder().motd(motd).build();
    assert_eq!(config.host, "0.0.0.0");
    assert_eq!(config.port, 25565);
    assert_eq!(config.max_players, 20);
    assert_eq!(config.motd.text, "hello");
}

#[test]
fn configuration_with_everything_set() {
    let motd = ChatComponent::builder().text(String::from("hello")).build();
    let config = ServerConfiguration::builder()
        .host("127.0.0.1")
        .port(25566)
        .max_players(7)
        .motd(motd)
        .host("localhost")
        .build();
    assert_eq!(config.host, "localhost");
    assert_eq!(config.port, 25566);
    assert_eq!(config.max_players, 7);
}

#[test]
fn chat_component_with_only_a_text() {
    let component = ChatComponent::builder().text(String::from("hello")).build();
    assert_eq!(component.text, "hello");
    assert_eq!(component.bold, None);
    assert_eq!(component.italic, None);
    assert_eq!(component.underlined, None);
    assert_eq!(component.strikethrough, None);
    assert_eq!(component.obfuscated, None);
    assert_eq!(component.font, None);
    assert_eq!(component.insertion, None);
    assert!(component.click_event.is_none());
    assert!(component.hover_event.is_none());
    assert!(component.extra.is_none());
}

#[test]
fn chat_component_with_everything_set() {
    let click = ClickEvent::builder()
        .open_url(Some(String::from("https://example.org")))
        .change_page(Some(String::from("2")))
        .build();
    assert_eq!(click.open_url.as_deref(), Some("https://example.org"));
    assert_eq!(click.run_command, None);
    assert_eq!(click.suggest_command, None);
    assert_eq!(click.change_page.as_deref(), Some("2"));
    assert_eq!(click.copy_to_clipboard, None);
    let child = ChatComponent::builder().text(String::from("child")).build();
    let component = ChatComponent::builder()
        .bold(Some(true))
        .italic(Some(false))
        .text(String::from("parent"))
        .underlined(Some(true))
        .strikethrough(Some(false))
        .obfuscated(Some(true))
        .font(Some(String::from("minecraft:default")))
        .insertion(Some(String::from("insert")))
        .click_event(Some(click))
        .hover_event(Some(HoverEvent::builder().build()))
        .extra(Some(vec![child]))
        .build();
    assert_eq!(component.text, "parent");
    assert_eq!(component.bold, Some(true));
    assert_eq!(component.italic, Some(false));
    assert_eq!(component.underlined, Some(true));
    assert_eq!(component.strikethrough, Some(false));
    assert_eq!(component.obfuscated, Some(true));
    assert_eq!(component.font.as_deref(), Some("minecraft:default"));
    assert_eq!(component.insertion.as_deref(), Some("insert"));
    assert_eq!(
        component.click_event.unwrap().open_url.as_deref(),
        Some("https://example.org")
    );
    assert!(component.hover_event.is_some());
    assert_eq!(component.extra.unwrap()[0].text, "child");
}

#[test]
fn click_event_setters() {
    let click = ClickEvent::builder()
        .run_command(Some(String::from("/help")))
        .suggest_command(Some(String::from("/tell")))
        .copy_to_clipboard(Some(String::from("copied")))
        .build();
    assert_eq!(click.open_url, None);
    assert_eq!(click.run_command.as_deref(), Some("/help"));
    assert_eq!(click.suggest_command.as_deref(), Some("/tell"));
    assert_eq!(click.copy_to_clipboard.as_deref(), Some("copied"));
}
