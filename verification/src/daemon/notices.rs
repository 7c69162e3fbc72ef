//! The notifications that are shown on this machine.
use crate::base::bus::Event;
use crate::json;
use crate::json::{Json, JsonView, Record};
use crate::ordered;
use crate::ordered::TextMap;
use vstd::prelude::*;

verus! {

/// A notification; `S` is the type of its texts.
#[derive(Debug)]
pub struct Notice<S = String> {
    /// Originating application name.
    pub app: S,
    /// Title.
    pub title: S,
    /// Body text.
    pub body: S,
}

impl View for Notice<String> {
    type V = Notice<Seq<char>>;

    open spec fn view(&self) -> Notice<Seq<char>> {
        Notice { app: self.app@, title: self.title@, body: self.body@ }
    }
}

/// The notifications that came and were not dismissed, by id.
#[derive(Debug)]
pub struct Notices {
    shown: TextMap<Notice>,
}

impl View for Notices {
    type V = Map<Seq<char>, Notice<Seq<char>>>;

    closed spec fn view(&self) -> Map<Seq<char>, Notice<Seq<char>>> {
        self.shown@.map_values(|n: Notice| n@)
    }
}

/// The notifications after an event: one that arrives is shown, in place of
/// an earlier one with its id.
pub open spec fn noted(
    shown: Map<Seq<char>, Notice<Seq<char>>>,
    event: Event<Seq<char>>,
) -> Map<Seq<char>, Notice<Seq<char>>> {
    match event {
        Event::NotificationReceived { id, app, title, body } => shown.insert(
            id,
            Notice { app, title, body },
        ),
        _ => shown,
    }
}

/// The notifications after one was dismissed.
pub open spec fn without(shown: Map<Seq<char>, Notice<Seq<char>>>, id: Seq<char>) -> Map<
    Seq<char>,
    Notice<Seq<char>>,
> {
    shown.remove(id)
}

/// A notification as a local client sees it.
pub open spec fn notice_json(id: Seq<char>, n: Notice<Seq<char>>) -> JsonView {
    JsonView::Object(
        Map::<Seq<char>, JsonView>::empty()
            .insert("id"@, JsonView::Str(id))
            .insert("app"@, JsonView::Str(n.app))
            .insert("title"@, JsonView::Str(n.title))
            .insert("body"@, JsonView::Str(n.body)),
    )
}

impl Notices {
    /// No notification is shown.
    pub fn new() -> (r: Self)
        ensures
            r@ == Map::<Seq<char>, Notice<Seq<char>>>::empty(),
    {
        let r = Notices { shown: TextMap::new() };
        assert(r@ =~= Map::<Seq<char>, Notice<Seq<char>>>::empty());
        r
    }

    /// Takes note of an event.
    pub fn note(&mut self, event: &Event)
        ensures
            final(self)@ == noted(old(self)@, event@),
    {
        if let Event::NotificationReceived { id, app, title, body } = event {
            let notice = Notice { app: app.clone(), title: title.clone(), body: body.clone() };
            let ghost seen = notice@;
            let _ = self.shown.insert(id.clone(), notice);
            assert(self@ =~= old(self)@.insert(id@, seen));
        }
    }

    /// Dismisses a notification; an unknown one is no error.
    pub fn dismiss(&mut self, id: &str)
        ensures
            final(self)@ == without(old(self)@, id@),
    {
        let _ = self.shown.remove(id);
        assert(self@ =~= old(self)@.remove(id@));
    }

    /// The notifications as a local client sees them, in the order of their
    /// ids.
    pub fn list(&self) -> (r: Vec<Json>)
        ensures
            json::list_view(r@) == ordered::listing(self@.dom()).map_values(
                |id: Seq<char>| notice_json(id, self@[id]),
            ),
    {
        let n = self.shown.len();
        let ghost ids = self.shown.keys();
        let ghost wanted = ids.map_values(|id: Seq<char>| notice_json(id, self@[id]));
        proof {
            ordered::lemma_listing(ids);
            assert(self@.dom() =~= ids.to_set());
        }
        let mut rows: Vec<Json> = Vec::new();
        let mut i: usize = 0;
        while i < n
            invariant
                i <= n,
                n == self.shown.items().len(),
                ids == self.shown.keys(),
                ids.len() == n,
                wanted == ids.map_values(|id: Seq<char>| notice_json(id, self@[id])),
                rows@.len() == i,
                forall|j: int| 0 <= j < i ==> (#[trigger] rows@[j])@ == wanted[j],
            decreases n - i,
        {
            let (id, notice) = self.shown.item(i);
            let row = Record::new()
                .with("id", Json::text(id.as_str()))
                .with("app", Json::text(notice.app.as_str()))
                .with("title", Json::text(notice.title.as_str()))
                .with("body", Json::text(notice.body.as_str()))
                .done();
            assert(row@ == wanted[i as int]);
            rows.push(row);
            i += 1;
        }
        proof {
            json::lemma_list_view(rows@);
            assert(json::list_view(rows@) =~= wanted);
        }
        rows
    }
}

/// A notification that arrives is listed with the texts that it came with,
/// each under its own name, until it is dismissed; other notifications are
/// listed as before, and no other event changes the list.
pub proof fn law_notifications_are_listed_until_dismissed(
    shown: Map<Seq<char>, Notice<Seq<char>>>,
    id: Seq<char>,
    app: Seq<char>,
    title: Seq<char>,
    body: Seq<char>,
    other: Seq<char>,
    event: Event<Seq<char>>,
)
    requires
        other != id,
    ensures
        ({
            let after = noted(shown, Event::NotificationReceived { id, app, title, body });
            let row = notice_json(id, after[id]);
            &&& after.contains_key(id)
            &&& json::text_at(row, "id"@) == Some(id)
            &&& json::text_at(row, "app"@) == Some(app)
            &&& json::text_at(row, "title"@) == Some(title)
            &&& json::text_at(row, "body"@) == Some(body)
            &&& !without(after, id).contains_key(id)
            &&& after.contains_key(other) == shown.contains_key(other)
            &&& shown.contains_key(other) ==> after[other] == shown[other]
            &&& without(shown, id).contains_key(other) == shown.contains_key(other)
            &&& shown.contains_key(other) ==> without(shown, id)[other] == shown[other]
        }),
        !(event is NotificationReceived) ==> noted(shown, event) == shown,
{
    reveal_strlit("id");
    reveal_strlit("app");
    reveal_strlit("title");
    reveal_strlit("body");
    assert("id"@.len() == 2);
    assert("app"@.len() == 3);
    assert("title"@.len() == 5);
    assert("body"@.len() == 4);
}

} // verus!
