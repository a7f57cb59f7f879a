//! The normalised card record handed to callers.
use vstd::prelude::*;

verus! {

/// The finish of a physical copy of a card.
#[derive(Clone, Copy, Debug, PartialEq, Eq, Structural)]
pub enum CardFinish {
    NonFoil,
    Foil,
    Etched,
}

impl Default for CardFinish {
    fn default() -> (r: Self)
        ensures
            r == CardFinish::NonFoil,
    {
        CardFinish::NonFoil
    }
}

/// Mathematical view of a [`Card`]: identifiers as integers, texts as
/// character sequences.
pub struct CardView {
    pub id: u128,
    pub oracle_id: u128,
    pub name: Seq<char>,
    pub type_line: Seq<char>,
    pub language: Seq<char>,
    pub image_uri: Seq<char>,
    pub scryfall_uri: Seq<char>,
    pub scryfall_set_uri: Seq<char>,
}

/// One printing of a card, with a single representative image.
///
/// `id` and `oracle_id` are the 128-bit values of the upstream UUIDs.
#[derive(Clone, Debug)]
pub struct Card {
    pub id: u128,
    pub oracle_id: u128,
    pub name: String,
    pub type_line: String,
    pub language: String,
    pub image_uri: String,
    pub scryfall_uri: String,
    pub scryfall_set_uri: String,
}

impl View for Card {
    type V = CardView;

    open spec fn view(&self) -> CardView {
        CardView {
            id: self.id,
            oracle_id: self.oracle_id,
            name: self.name@,
            type_line: self.type_line@,
            language: self.language@,
            image_uri: self.image_uri@,
            scryfall_uri: self.scryfall_uri@,
            scryfall_set_uri: self.scryfall_set_uri@,
        }
    }
}

impl PartialEq for Card {
    fn eq(&self, o: &Card) -> (r: bool) {
        self.id == o.id && self.oracle_id == o.oracle_id && self.name == o.name
            && self.type_line == o.type_line && self.language == o.language
            && self.image_uri == o.image_uri && self.scryfall_uri == o.scryfall_uri
            && self.scryfall_set_uri == o.scryfall_set_uri
    }
}

impl vstd::std_specs::cmp::PartialEqSpecImpl for Card {
    open spec fn obeys_eq_spec() -> bool {
        true
    }

    open spec fn eq_spec(&self, o: &Card) -> bool {
        self@ == o@
    }
}

impl Eq for Card {

}

impl Default for Card {
    fn default() -> (r: Self)
        ensures
            r@ == (CardView {
                id: 0,
                oracle_id: 0,
                name: Seq::empty(),
                type_line: Seq::empty(),
                language: Seq::empty(),
                image_uri: Seq::empty(),
                scryfall_uri: Seq::empty(),
                scryfall_set_uri: Seq::empty(),
            }),
    {
        Card {
            id: 0,
            oracle_id: 0,
            name: String::new(),
            type_line: String::new(),
            language: String::new(),
            image_uri: String::new(),
            scryfall_uri: String::new(),
            scryfall_set_uri: String::new(),
        }
    }
}

/// A card together with the finish of a particular copy.
#[derive(Clone, Debug, PartialEq, Eq, Default)]
pub struct CardInstance {
    pub card: Card,
    pub finish: CardFinish,
}

} // verus!
