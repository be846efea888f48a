use eco_marketplace::mount::{mount_app, mount_to_body, Document, MountError};
use eco_marketplace::node::{Content, Node, Tag};
use eco_marketplace::page::{feature_card, App};

fn kids(n: &Node) -> &Vec<Node> {
    match &n.content {
        Content::Children(cs) => cs,
        Content::Text(_) => panic!("expected a node with children"),
    }
}

fn text_of(n: &Node) -> &str {
    match &n.content {
        Content::Text(t) => t.as_str(),
        Content::Children(_) => panic!("expected a text node"),
    }
}

fn count_tag(n: &Node, t: Tag) -> usize {
    let own = if n.tag == t { 1 } else { 0 };
    match &n.content {
        Content::Text(_) => own,
        Content::Children(cs) => own + cs.iter().map(|c| count_tag(c, t)).sum::<usize>(),
    }
}

fn is_card(n: &Node) -> bool {
    match &n.content {
        Content::Children(cs) => {
            n.tag == Tag::Container
                && cs.len() == 2
                && cs[0].tag == Tag::Subheading
                && matches!(cs[0].content, Content::Text(_))
                && cs[1].tag == Tag::Paragraph
                && matches!(cs[1].content, Content::Text(_))
        }
        Content::Text(_) => false,
    }
}

fn count_cards(n: &Node) -> usize {
    let own = if is_card(n) { 1 } else { 0 };
    match &n.content {
        Content::Text(_) => own,
        Content::Children(cs) => own + cs.iter().map(count_cards).sum::<usize>(),
    }
}

#[test]
fn heading_and_card_titles() {
    let page = App();
    let sections = kids(&page);
    assert_eq!(sections[0].tag, Tag::Heading);
    assert_eq!(text_of(&sections[0]), "Экологический Маркетплейс");
    let cards = kids(&sections[2]);
    let titles: Vec<&str> = cards.iter().map(|c| text_of(&kids(c)[0])).collect();
    assert_eq!(titles, vec!["Местные Фермеры", "Эко Продукты", "Поддержка Сообщества"]);
}

#[test]
fn intro_and_descriptions() {
    let page = App();
    let sections = kids(&page);
    assert_eq!(sections[1].tag, Tag::Paragraph);
    assert_eq!(
        text_of(&sections[1]),
        "Добро пожаловать в мир экологически чистых продуктов!"
    );
    let cards = kids(&sections[2]);
    assert_eq!(
        text_of(&kids(&cards[0])[1]),
        "Найдите продукты напрямую от местных фермеров в вашем городе."
    );
    assert_eq!(
        text_of(&kids(&cards[1])[1]),
        "Покупайте экологически чистые продукты, которые полезны для вас и окружающей среды."
    );
    assert_eq!(
        text_of(&kids(&cards[2])[1]),
        "Поддержите свое местное сообщество, покупая у местных производителей."
    );
}

#[test]
fn one_heading_one_intro_three_cards() {
    let page = App();
    assert_eq!(count_tag(&page, Tag::Heading), 1);
    let direct_paragraphs = kids(&page).iter().filter(|c| c.tag == Tag::Paragraph).count();
    assert_eq!(direct_paragraphs, 1);
    assert_eq!(count_cards(&page), 3);
    assert_eq!(count_tag(&page, Tag::Subheading), 3);
    assert_eq!(count_tag(&page, Tag::Paragraph), 4);
}

#[test]
fn cards_hold_distinct_non_empty_text() {
    let page = App();
    let cards = kids(&kids(&page)[2]);
    assert_eq!(cards.len(), 3);
    for c in cards.iter() {
        assert!(is_card(c));
        assert!(!text_of(&kids(c)[0]).is_empty());
        assert!(!text_of(&kids(c)[1]).is_empty());
    }
    for i in 0..3 {
        for j in (i + 1)..3 {
            assert_ne!(text_of(&kids(&cards[i])[0]), text_of(&kids(&cards[j])[0]));
            assert_ne!(text_of(&kids(&cards[i])[1]), text_of(&kids(&cards[j])[1]));
        }
    }
}

#[test]
fn class_attributes() {
    let page = App();
    assert_eq!(page.class_attr(), "container mx-auto p-4");
    let sections = kids(&page);
    assert_eq!(sections[0].class_attr(), "text-4xl font-bold text-center text-green-600");
    assert_eq!(sections[1].class_attr(), "mt-4 text-lg text-gray-700");
    assert_eq!(
        sections[2].class_attr(),
        "mt-8 grid grid-cols-1 md:grid-cols-2 lg:grid-cols-3 gap-4"
    );
    let card = &kids(&sections[2])[0];
    assert_eq!(card.class_attr(), "p-4 border rounded-lg shadow-lg");
    assert_eq!(kids(card)[0].class_attr(), "text-2xl font-semibold");
    assert_eq!(kids(card)[1].class_attr(), "mt-2");
}

#[test]
fn class_attr_of_no_names_is_empty() {
    let n = Node::text(Tag::Paragraph, &[], "x");
    assert_eq!(n.class_attr(), "");
    assert_eq!(text_of(&n), "x");
}

#[test]
fn tag_names() {
    assert_eq!(Tag::Container.name(), "div");
    assert_eq!(Tag::Heading.name(), "h1");
    assert_eq!(Tag::Subheading.name(), "h2");
    assert_eq!(Tag::Paragraph.name(), "p");
}

#[test]
fn feature_card_shape() {
    let c = feature_card("A", "B");
    assert!(is_card(&c));
    assert_eq!(text_of(&kids(&c)[0]), "A");
    assert_eq!(text_of(&kids(&c)[1]), "B");
}

#[test]
fn mount_attaches_one_copy() {
    let mut doc = Document::with_body();
    assert!(doc.has_target());
    assert_eq!(doc.attached_count(), 0);
    assert_eq!(mount_app(&mut doc), Ok(()));
    assert_eq!(doc.attached_count(), 1);
    let attached = doc.body.as_ref().unwrap();
    assert_eq!(text_of(&kids(&attached[0])[0]), "Экологический Маркетплейс");
}

#[test]
fn mount_replaces_what_was_attached() {
    let mut doc = Document::with_body();
    assert_eq!(mount_to_body(&mut doc, Node::text(Tag::Paragraph, &[], "old")), Ok(()));
    assert_eq!(mount_app(&mut doc), Ok(()));
    assert_eq!(doc.attached_count(), 1);
    assert_eq!(doc.body.as_ref().unwrap()[0].tag, Tag::Container);
}

#[test]
fn mount_without_target_fails() {
    let mut doc = Document::without_body();
    assert!(!doc.has_target());
    assert_eq!(mount_app(&mut doc), Err(MountError::TargetUnavailable));
    assert!(doc.body.is_none());
    assert_eq!(doc.attached_count(), 0);
    assert_eq!(MountError::TargetUnavailable.message(), "mount target unavailable");
}
