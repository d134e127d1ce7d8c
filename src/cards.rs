use vstd::prelude::*;

verus! {

/// The card templates of the views; the display layer gives each its styling.
#[derive(Clone, Copy, Debug, PartialEq, Eq, Structural)]
pub enum CardStyle {
    Post,
    ChatItem,
    MessageBubble,
    Group,
    Media,
    ShareItem,
    Tile,
    Activity,
    Notification,
    SearchResult,
    SettingsItem,
}

/// A card as the display layer draws it: a glyph, up to three lines of text,
/// and a marker for unread, own or editable records. A slot that the
/// template leaves out is empty.
#[derive(Debug)]
pub struct CardWidget {
    pub style: CardStyle,
    pub glyph: String,
    pub title: String,
    pub detail: String,
    pub meta: String,
    pub marked: bool,
}

/// Mathematical value of a card.
pub struct CardModel {
    pub style: CardStyle,
    pub glyph: Seq<char>,
    pub title: Seq<char>,
    pub detail: Seq<char>,
    pub meta: Seq<char>,
    pub marked: bool,
}

impl View for CardWidget {
    type V = CardModel;

    open spec fn view(&self) -> CardModel {
        CardModel {
            style: self.style,
            glyph: self.glyph@,
            title: self.title@,
            detail: self.detail@,
            meta: self.meta@,
            marked: self.marked,
        }
    }
}

/// How a record shape becomes a card.
pub trait CardTemplate: Sized {
    /// The card this record is drawn as.
    spec fn card_model(&self) -> CardModel;

    fn to_card(&self) -> (r: CardWidget)
        ensures
            r@ == self.card_model(),
    ;
}

/// The cards of `records`, one per record, in the records' order.
pub open spec fn rendered<R: CardTemplate>(records: Seq<R>) -> Seq<CardModel> {
    records.map_values(|x: R| x.card_model())
}

/// Draws each record as a card, keeping the order of the records.
pub fn render<R: CardTemplate>(records: &Vec<R>) -> (r: Vec<CardWidget>)
    ensures
        r@.len() == records@.len(),
        forall|i: int| 0 <= i < records@.len() ==> #[trigger] r@[i]@ == records@[i].card_model(),
        r@.map_values(|w: CardWidget| w@) == rendered(records@),
{
    let mut out: Vec<CardWidget> = Vec::new();
    let mut i: usize = 0;
    while i < records.len()
        invariant
            i <= records@.len(),
            out@.len() == i,
            forall|j: int| 0 <= j < i ==> #[trigger] out@[j]@ == records@[j].card_model(),
        decreases records@.len() - i,
    {
        out.push(records[i].to_card());
        i = i + 1;
    }
    assert(out@.map_values(|w: CardWidget| w@) =~= rendered(records@));
    out
}

/// Number of columns of the media gallery and of the attachment grid.
pub const GALLERY_COLUMNS: usize = 3;

/// A cell of a grid, counted from zero.
#[derive(Clone, Copy, Debug, PartialEq, Eq, Structural)]
pub struct GridCell {
    pub row: usize,
    pub column: usize,
}

/// Row-major placement of the item at `index` in a grid of `columns` columns.
pub fn grid_cell(index: usize, columns: usize) -> (r: GridCell)
    requires
        columns > 0,
    ensures
        r.row == index / columns,
        r.column == index % columns,
{
    GridCell { row: index / columns, column: index % columns }
}

/// A card with its place in a grid.
#[derive(Debug)]
pub struct PlacedCard {
    pub card: CardWidget,
    pub cell: GridCell,
}

/// Draws each record as a card and lays the cards out row-major, `columns`
/// to a row, in the records' order.
pub fn render_grid<R: CardTemplate>(records: &Vec<R>, columns: usize) -> (r: Vec<PlacedCard>)
    requires
        columns > 0,
    ensures
        r@.len() == records@.len(),
        forall|i: int|
            0 <= i < records@.len() ==> {
                &&& #[trigger] r@[i].card@ == records@[i].card_model()
                &&& r@[i].cell.row == i / columns as int
                &&& r@[i].cell.column == i % columns as int
            },
{
    let mut out: Vec<PlacedCard> = Vec::new();
    let mut i: usize = 0;
    let n = records.len();
    while i < n
        invariant
            n == records@.len(),
            columns > 0,
            i <= n,
            out@.len() == i,
            forall|j: int|
                0 <= j < i ==> {
                    &&& #[trigger] out@[j].card@ == records@[j].card_model()
                    &&& out@[j].cell.row == j / columns as int
                    &&& out@[j].cell.column == j % columns as int
                },
        decreases n - i,
    {
        out.push(PlacedCard { card: records[i].to_card(), cell: grid_cell(i, columns) });
        i = i + 1;
    }
    out
}

/// For each tab label, whether it is the selected one.
pub fn tab_flags(labels: &Vec<String>, selected: &String) -> (r: Vec<bool>)
    ensures
        r@.len() == labels@.len(),
        forall|i: int| 0 <= i < labels@.len() ==> #[trigger] r@[i] == (labels@[i]@ == selected@),
{
    let mut out: Vec<bool> = Vec::new();
    let mut i: usize = 0;
    while i < labels.len()
        invariant
            i <= labels@.len(),
            out@.len() == i,
            forall|j: int| 0 <= j < i ==> #[trigger] out@[j] == (labels@[j]@ == selected@),
        decreases labels@.len() - i,
    {
        out.push(labels[i] == *selected);
        i = i + 1;
    }
    out
}

/// A post of the feed.
#[derive(Debug)]
pub struct PostRecord {
    pub author: String,
    pub body: String,
    pub timestamp: String,
    pub avatar: String,
}

impl CardTemplate for PostRecord {
    open spec fn card_model(&self) -> CardModel {
        CardModel {
            style: CardStyle::Post,
            glyph: self.avatar@,
            title: self.author@,
            detail: self.body@,
            meta: self.timestamp@,
            marked: false,
        }
    }

    fn to_card(&self) -> (r: CardWidget) {
        CardWidget {
            style: CardStyle::Post,
            glyph: self.avatar.clone(),
            title: self.author.clone(),
            detail: self.body.clone(),
            meta: self.timestamp.clone(),
            marked: false,
        }
    }
}

/// One conversation in the chat list.
#[derive(Debug)]
pub struct ChatSummary {
    pub name: String,
    pub last_message: String,
    pub timestamp: String,
    pub unread: bool,
}

impl CardTemplate for ChatSummary {
    open spec fn card_model(&self) -> CardModel {
        CardModel {
            style: CardStyle::ChatItem,
            glyph: Seq::<char>::empty(),
            title: self.name@,
            detail: self.last_message@,
            meta: self.timestamp@,
            marked: self.unread,
        }
    }

    fn to_card(&self) -> (r: CardWidget) {
        CardWidget {
            style: CardStyle::ChatItem,
            glyph: String::new(),
            title: self.name.clone(),
            detail: self.last_message.clone(),
            meta: self.timestamp.clone(),
            marked: self.unread,
        }
    }
}

/// One message of a conversation; `own` marks the user's own messages.
#[derive(Debug)]
pub struct ChatMessage {
    pub sender: String,
    pub text: String,
    pub own: bool,
}

impl CardTemplate for ChatMessage {
    open spec fn card_model(&self) -> CardModel {
        CardModel {
            style: CardStyle::MessageBubble,
            glyph: Seq::<char>::empty(),
            title: self.sender@,
            detail: self.text@,
            meta: Seq::<char>::empty(),
            marked: self.own,
        }
    }

    fn to_card(&self) -> (r: CardWidget) {
        CardWidget {
            style: CardStyle::MessageBubble,
            glyph: String::new(),
            title: self.sender.clone(),
            detail: self.text.clone(),
            meta: String::new(),
            marked: self.own,
        }
    }
}

/// A community group.
#[derive(Debug)]
pub struct GroupRecord {
    pub name: String,
    pub members: String,
    pub icon: String,
    pub description: String,
}

impl CardTemplate for GroupRecord {
    open spec fn card_model(&self) -> CardModel {
        CardModel {
            style: CardStyle::Group,
            glyph: self.icon@,
            title: self.name@,
            detail: self.description@,
            meta: self.members@,
            marked: false,
        }
    }

    fn to_card(&self) -> (r: CardWidget) {
        CardWidget {
            style: CardStyle::Group,
            glyph: self.icon.clone(),
            title: self.name.clone(),
            detail: self.description.clone(),
            meta: self.members.clone(),
            marked: false,
        }
    }
}

/// An item of the media gallery.
#[derive(Debug)]
pub struct MediaRecord {
    pub icon: String,
    pub title: String,
    pub timestamp: String,
}

impl CardTemplate for MediaRecord {
    open spec fn card_model(&self) -> CardModel {
        CardModel {
            style: CardStyle::Media,
            glyph: self.icon@,
            title: self.title@,
            detail: Seq::<char>::empty(),
            meta: self.timestamp@,
            marked: false,
        }
    }

    fn to_card(&self) -> (r: CardWidget) {
        CardWidget {
            style: CardStyle::Media,
            glyph: self.icon.clone(),
            title: self.title.clone(),
            detail: String::new(),
            meta: self.timestamp.clone(),
            marked: false,
        }
    }
}

/// A recently shared file.
#[derive(Debug)]
pub struct ShareRecord {
    pub file: String,
    pub shared_with: String,
    pub timestamp: String,
    pub icon: String,
}

impl CardTemplate for ShareRecord {
    open spec fn card_model(&self) -> CardModel {
        CardModel {
            style: CardStyle::ShareItem,
            glyph: self.icon@,
            title: self.file@,
            detail: self.shared_with@,
            meta: self.timestamp@,
            marked: false,
        }
    }

    fn to_card(&self) -> (r: CardWidget) {
        CardWidget {
            style: CardStyle::ShareItem,
            glyph: self.icon.clone(),
            title: self.file.clone(),
            detail: self.shared_with.clone(),
            meta: self.timestamp.clone(),
            marked: false,
        }
    }
}

/// A square choice tile: a share option or an attachment type.
#[derive(Debug)]
pub struct TileRecord {
    pub icon: String,
    pub label: String,
}

impl CardTemplate for TileRecord {
    open spec fn card_model(&self) -> CardModel {
        CardModel {
            style: CardStyle::Tile,
            glyph: self.icon@,
            title: self.label@,
            detail: Seq::<char>::empty(),
            meta: Seq::<char>::empty(),
            marked: false,
        }
    }

    fn to_card(&self) -> (r: CardWidget) {
        CardWidget {
            style: CardStyle::Tile,
            glyph: self.icon.clone(),
            title: self.label.clone(),
            detail: String::new(),
            meta: String::new(),
            marked: false,
        }
    }
}

/// An entry of the profile's recent activity.
#[derive(Debug)]
pub struct ActivityRecord {
    pub activity: String,
    pub timestamp: String,
    pub icon: String,
}

impl CardTemplate for ActivityRecord {
    open spec fn card_model(&self) -> CardModel {
        CardModel {
            style: CardStyle::Activity,
            glyph: self.icon@,
            title: self.activity@,
            detail: Seq::<char>::empty(),
            meta: self.timestamp@,
            marked: false,
        }
    }

    fn to_card(&self) -> (r: CardWidget) {
        CardWidget {
            style: CardStyle::Activity,
            glyph: self.icon.clone(),
            title: self.activity.clone(),
            detail: String::new(),
            meta: self.timestamp.clone(),
            marked: false,
        }
    }
}

/// A notification; `unread` highlights it.
#[derive(Debug)]
pub struct NotificationRecord {
    pub icon: String,
    pub actor: String,
    pub action: String,
    pub timestamp: String,
    pub unread: bool,
}

impl CardTemplate for NotificationRecord {
    open spec fn card_model(&self) -> CardModel {
        CardModel {
            style: CardStyle::Notification,
            glyph: self.icon@,
            title: self.actor@,
            detail: self.action@,
            meta: self.timestamp@,
            marked: self.unread,
        }
    }

    fn to_card(&self) -> (r: CardWidget) {
        CardWidget {
            style: CardStyle::Notification,
            glyph: self.icon.clone(),
            title: self.actor.clone(),
            detail: self.action.clone(),
            meta: self.timestamp.clone(),
            marked: self.unread,
        }
    }
}

/// A recent search result.
#[derive(Debug)]
pub struct SearchResultRecord {
    pub icon: String,
    pub title: String,
    pub category: String,
}

impl CardTemplate for SearchResultRecord {
    open spec fn card_model(&self) -> CardModel {
        CardModel {
            style: CardStyle::SearchResult,
            glyph: self.icon@,
            title: self.title@,
            detail: self.category@,
            meta: Seq::<char>::empty(),
            marked: false,
        }
    }

    fn to_card(&self) -> (r: CardWidget) {
        CardWidget {
            style: CardStyle::SearchResult,
            glyph: self.icon.clone(),
            title: self.title.clone(),
            detail: self.category.clone(),
            meta: String::new(),
            marked: false,
        }
    }
}

/// A settings row; `editable` adds an edit control.
#[derive(Debug)]
pub struct SettingsRow {
    pub label: String,
    pub value: String,
    pub editable: bool,
}

impl CardTemplate for SettingsRow {
    open spec fn card_model(&self) -> CardModel {
        CardModel {
            style: CardStyle::SettingsItem,
            glyph: Seq::<char>::empty(),
            title: self.label@,
            detail: self.value@,
            meta: Seq::<char>::empty(),
            marked: self.editable,
        }
    }

    fn to_card(&self) -> (r: CardWidget) {
        CardWidget {
            style: CardStyle::SettingsItem,
            glyph: String::new(),
            title: self.label.clone(),
            detail: self.value.clone(),
            meta: String::new(),
            marked: self.editable,
        }
    }
}
} // verus!
