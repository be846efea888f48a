use vstd::prelude::*;

use crate::node::{
    children, count_children, count_nodes, element_model, has_tag, lemma_count_text,
    lemma_count_three, lemma_count_two, lemma_matching_three, lemma_matching_two, models,
    names_model, text, text_model, Node, NodeModel, Tag,
};

verus! {

/// The page's main heading.
pub open spec fn title_text() -> Seq<char> {
    "Экологический Маркетплейс"@
}

/// The paragraph under the main heading.
pub open spec fn intro_text() -> Seq<char> {
    "Добро пожаловать в мир экологически чистых продуктов!"@
}

/// The heading of the feature card at position `i` (0, 1 or 2).
pub open spec fn card_title(i: int) -> Seq<char> {
    if i == 0 {
        "Местные Фермеры"@
    } else if i == 1 {
        "Эко Продукты"@
    } else {
        "Поддержка Сообщества"@
    }
}

/// The description of the feature card at position `i` (0, 1 or 2).
pub open spec fn card_description(i: int) -> Seq<char> {
    if i == 0 {
        "Найдите продукты напрямую от местных фермеров в вашем городе."@
    } else if i == 1 {
        "Покупайте экологически чистые продукты, которые полезны для вас и окружающей среды."@
    } else {
        "Поддержите свое местное сообщество, покупая у местных производителей."@
    }
}

/// Class names of the outer page container.
pub open spec fn page_classes() -> Seq<Seq<char>> {
    seq!["container"@, "mx-auto"@, "p-4"@]
}

/// Class names of the main heading.
pub open spec fn title_classes() -> Seq<Seq<char>> {
    seq!["text-4xl"@, "font-bold"@, "text-center"@, "text-green-600"@]
}

/// Class names of the introductory paragraph.
pub open spec fn intro_classes() -> Seq<Seq<char>> {
    seq!["mt-4"@, "text-lg"@, "text-gray-700"@]
}

/// Class names of the grid that holds the feature cards.
pub open spec fn grid_classes() -> Seq<Seq<char>> {
    seq!["mt-8"@, "grid"@, "grid-cols-1"@, "md:grid-cols-2"@, "lg:grid-cols-3"@, "gap-4"@]
}

/// Class names of a feature card.
pub open spec fn card_classes() -> Seq<Seq<char>> {
    seq!["p-4"@, "border"@, "rounded-lg"@, "shadow-lg"@]
}

/// Class names of a feature card's heading.
pub open spec fn card_title_classes() -> Seq<Seq<char>> {
    seq!["text-2xl"@, "font-semibold"@]
}

/// Class names of a feature card's description.
pub open spec fn card_description_classes() -> Seq<Seq<char>> {
    seq!["mt-2"@]
}

/// A feature card: a container with a subheading and a description paragraph.
pub open spec fn card_model(title: Seq<char>, description: Seq<char>) -> NodeModel {
    element_model(
        Tag::Container,
        card_classes(),
        seq![
            text_model(Tag::Subheading, card_title_classes(), title),
            text_model(Tag::Paragraph, card_description_classes(), description),
        ],
    )
}

/// The whole landing page: a container with the main heading, the
/// introductory paragraph and a grid of the three feature cards.
pub open spec fn landing_page() -> NodeModel {
    element_model(
        Tag::Container,
        page_classes(),
        seq![
            text_model(Tag::Heading, title_classes(), title_text()),
            text_model(Tag::Paragraph, intro_classes(), intro_text()),
            element_model(
                Tag::Container,
                grid_classes(),
                seq![
                    card_model(card_title(0), card_description(0)),
                    card_model(card_title(1), card_description(1)),
                    card_model(card_title(2), card_description(2)),
                ],
            ),
        ],
    )
}

proof fn lemma_models_two(a: Node, b: Node)
    ensures
        models(seq![a, b]) == seq![a.model(), b.model()],
{
    reveal_with_fuel(models, 3);
    assert(seq![a, b].subrange(1, 2) =~= seq![b]);
    assert(seq![b].subrange(1, 1) =~= Seq::<Node>::empty());
    assert(models(seq![a, b]) =~= seq![a.model(), b.model()]);
}

proof fn lemma_models_three(a: Node, b: Node, c: Node)
    ensures
        models(seq![a, b, c]) == seq![a.model(), b.model(), c.model()],
{
    lemma_models_two(b, c);
    assert(seq![a, b, c].subrange(1, 3) =~= seq![b, c]);
    assert(models(seq![a, b, c]) =~= seq![a.model(), b.model(), c.model()]);
}

/// A feature card with the given heading and description.
pub fn feature_card(title: &str, description: &str) -> (r: Node)
    ensures
        r.model() == card_model(title@, description@),
{
    let card_names: [&str; 4] = ["p-4", "border", "rounded-lg", "shadow-lg"];
    let title_names: [&str; 2] = ["text-2xl", "font-semibold"];
    let description_names: [&str; 1] = ["mt-2"];
    assert(names_model(card_names@) =~= card_classes());
    assert(names_model(title_names@) =~= card_title_classes());
    assert(names_model(description_names@) =~= card_description_classes());
    let heading = Node::text(Tag::Subheading, &title_names, title);
    let body = Node::text(Tag::Paragraph, &description_names, description);
    proof {
        lemma_models_two(heading, body);
    }
    Node::element(Tag::Container, &card_names, vec![heading, body])
}

/// Builds the landing page. It takes no input, cannot fail, and always
/// yields the same tree.
#[allow(non_snake_case)]
pub fn App() -> (r: Node)
    ensures
        r.model() == landing_page(),
{
    let page_names: [&str; 3] = ["container", "mx-auto", "p-4"];
    let title_names: [&str; 4] = ["text-4xl", "font-bold", "text-center", "text-green-600"];
    let intro_names: [&str; 3] = ["mt-4", "text-lg", "text-gray-700"];
    let grid_names: [&str; 6] = [
        "mt-8",
        "grid",
        "grid-cols-1",
        "md:grid-cols-2",
        "lg:grid-cols-3",
        "gap-4",
    ];
    assert(names_model(page_names@) =~= page_classes());
    assert(names_model(title_names@) =~= title_classes());
    assert(names_model(intro_names@) =~= intro_classes());
    assert(names_model(grid_names@) =~= grid_classes());

    let title = Node::text(Tag::Heading, &title_names, "Экологический Маркетплейс");
    let intro = Node::text(
        Tag::Paragraph,
        &intro_names,
        "Добро пожаловать в мир экологически чистых продуктов!",
    );
    let farmers = feature_card(
        "Местные Фермеры",
        "Найдите продукты напрямую от местных фермеров в вашем городе.",
    );
    let products = feature_card(
        "Эко Продукты",
        "Покупайте экологически чистые продукты, которые полезны для вас и окружающей среды.",
    );
    let community = feature_card(
        "Поддержка Сообщества",
        "Поддержите свое местное сообщество, покупая у местных производителей.",
    );
    proof {
        lemma_models_three(farmers, products, community);
    }
    let grid = Node::element(Tag::Container, &grid_names, vec![farmers, products, community]);
    proof {
        lemma_models_three(title, intro, grid);
    }
    Node::element(Tag::Container, &page_names, vec![title, intro, grid])
}

/// Whether a node has the shape of a feature card: a container that holds a
/// subheading and then a description paragraph, both of them text.
pub open spec fn is_feature_card(m: NodeModel) -> bool {
    &&& m.tag == Tag::Container
    &&& children(m).len() == 2
    &&& children(m)[0].tag == Tag::Subheading
    &&& children(m)[0].content is Text
    &&& children(m)[1].tag == Tag::Paragraph
    &&& children(m)[1].content is Text
}

/// Whether a node is a feature card, as a predicate for counting.
pub open spec fn card_shape() -> spec_fn(NodeModel) -> bool {
    |m: NodeModel| is_feature_card(m)
}

/// The members of the grid, the third section of the page.
pub open spec fn feature_cards(page: NodeModel) -> Seq<NodeModel> {
    children(children(page)[2])
}

proof fn lemma_count_card(t: Seq<char>, d: Seq<char>, p: spec_fn(NodeModel) -> bool)
    ensures
        count_nodes(card_model(t, d), p) == (if p(card_model(t, d)) { 1nat } else { 0nat })
            + (if p(text_model(Tag::Subheading, card_title_classes(), t)) { 1nat } else { 0nat })
            + (if p(text_model(Tag::Paragraph, card_description_classes(), d)) { 1nat } else { 0nat }),
{
    let a = text_model(Tag::Subheading, card_title_classes(), t);
    let b = text_model(Tag::Paragraph, card_description_classes(), d);
    lemma_count_two(a, b, p);
    lemma_count_text(Tag::Subheading, card_title_classes(), t, p);
    lemma_count_text(Tag::Paragraph, card_description_classes(), d, p);
}

proof fn lemma_count_grid(p: spec_fn(NodeModel) -> bool)
    ensures
        count_nodes(children(landing_page())[2], p) == (if p(children(landing_page())[2]) { 1nat } else { 0nat })
            + count_nodes(card_model(card_title(0), card_description(0)), p)
            + count_nodes(card_model(card_title(1), card_description(1)), p)
            + count_nodes(card_model(card_title(2), card_description(2)), p),
{
    lemma_count_three(
        card_model(card_title(0), card_description(0)),
        card_model(card_title(1), card_description(1)),
        card_model(card_title(2), card_description(2)),
        p,
    );
}

proof fn lemma_count_page(p: spec_fn(NodeModel) -> bool)
    ensures
        count_nodes(landing_page(), p) == (if p(landing_page()) { 1nat } else { 0nat })
            + count_nodes(children(landing_page())[0], p)
            + count_nodes(children(landing_page())[1], p)
            + count_nodes(children(landing_page())[2], p),
{
    let cs = children(landing_page());
    lemma_count_three(cs[0], cs[1], cs[2], p);
}

/// The page holds exactly one main heading, exactly one paragraph directly
/// under the page (the introduction), and exactly three feature cards.
pub proof fn lemma_page_sections(page: Node)
    requires
        page.model() == landing_page(),
    ensures
        count_nodes(page.model(), has_tag(Tag::Heading)) == 1,
        count_children(page.model(), has_tag(Tag::Paragraph)) == 1,
        count_nodes(page.model(), card_shape()) == 3,
{
    let cs = children(landing_page());
    lemma_count_page(has_tag(Tag::Heading));
    lemma_count_text(Tag::Heading, title_classes(), title_text(), has_tag(Tag::Heading));
    lemma_count_text(Tag::Paragraph, intro_classes(), intro_text(), has_tag(Tag::Heading));
    lemma_count_grid(has_tag(Tag::Heading));
    lemma_count_card(card_title(0), card_description(0), has_tag(Tag::Heading));
    lemma_count_card(card_title(1), card_description(1), has_tag(Tag::Heading));
    lemma_count_card(card_title(2), card_description(2), has_tag(Tag::Heading));

    lemma_matching_three(cs[0], cs[1], cs[2], has_tag(Tag::Paragraph));

    lemma_count_page(card_shape());
    lemma_count_text(Tag::Heading, title_classes(), title_text(), card_shape());
    lemma_count_text(Tag::Paragraph, intro_classes(), intro_text(), card_shape());
    lemma_count_grid(card_shape());
    lemma_count_card(card_title(0), card_description(0), card_shape());
    lemma_count_card(card_title(1), card_description(1), card_shape());
    lemma_count_card(card_title(2), card_description(2), card_shape());
}

/// Each of the three feature cards holds exactly one subheading and one
/// description paragraph, each with non-empty text, and no two cards share
/// a heading or a description.
pub proof fn lemma_feature_cards(page: Node)
    requires
        page.model() == landing_page(),
    ensures
        feature_cards(page.model()).len() == 3,
        forall|i: int|
            0 <= i < 3 ==> {
                let card = #[trigger] feature_cards(page.model())[i];
                &&& is_feature_card(card)
                &&& count_children(card, has_tag(Tag::Subheading)) == 1
                &&& count_children(card, has_tag(Tag::Paragraph)) == 1
                &&& text(children(card)[0]).len() > 0
                &&& text(children(card)[1]).len() > 0
            },
        forall|i: int, j: int|
            0 <= i < j < 3 ==> {
                &&& text(children(feature_cards(page.model())[i])[0]) != text(
                    children(feature_cards(page.model())[j])[0],
                )
                &&& text(children(feature_cards(page.model())[i])[1]) != text(
                    children(feature_cards(page.model())[j])[1],
                )
            },
{
    reveal_strlit("Местные Фермеры");
    reveal_strlit("Эко Продукты");
    reveal_strlit("Поддержка Сообщества");
    reveal_strlit("Найдите продукты напрямую от местных фермеров в вашем городе.");
    reveal_strlit("Покупайте экологически чистые продукты, которые полезны для вас и окружающей среды.");
    reveal_strlit("Поддержите свое местное сообщество, покупая у местных производителей.");
    let cards = feature_cards(page.model());
    assert(text(children(cards[0])[0]).len() == 15);
    assert(text(children(cards[1])[0]).len() == 12);
    assert(text(children(cards[2])[0]).len() == 20);
    assert(text(children(cards[0])[1]).len() == 61);
    assert(text(children(cards[1])[1]).len() == 83);
    assert(text(children(cards[2])[1]).len() == 69);
    assert forall|i: int| 0 <= i < 3 implies {
        let card = #[trigger] feature_cards(page.model())[i];
        &&& count_children(card, has_tag(Tag::Subheading)) == 1
        &&& count_children(card, has_tag(Tag::Paragraph)) == 1
    } by {
        let card = feature_cards(page.model())[i];
        lemma_matching_two(children(card)[0], children(card)[1], has_tag(Tag::Subheading));
        lemma_matching_two(children(card)[0], children(card)[1], has_tag(Tag::Paragraph));
        assert(children(card) =~= seq![children(card)[0], children(card)[1]]);
    }
}

} // verus!
