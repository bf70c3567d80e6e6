//! What news from the network change in the state.
use crate::app::{App, AppModel};
use crate::artwork::{artwork_step, pixels, Pixel, StepModel};
use crate::catalog::{Channel, ChannelModel};
use crate::feed::{ChannelUpdate, ScheduleUpdate, ScheduleUpdateModel, UpdateModel};
use crate::text::{opt_view, push_item, views};
use image::DynamicImage;
use vstd::prelude::*;

verus! {

/// A change to the pictures that are kept for the channels.
pub enum ArtworkChange {
    /// The channel has no picture any more.
    Forget { index: usize },
    /// The channel has another picture.
    Replace { index: usize, image: DynamicImage },
    /// The channel has its first picture.
    Create { index: usize, image: DynamicImage },
}

/// The model of an `ArtworkChange`.
pub enum ChangeModel {
    Forget { index: int },
    Replace { index: int, image: Seq<Seq<Pixel>> },
    Create { index: int, image: Seq<Seq<Pixel>> },
}

impl View for ArtworkChange {
    type V = ChangeModel;

    open spec fn view(&self) -> ChangeModel {
        match *self {
            ArtworkChange::Forget { index } => ChangeModel::Forget { index: index as int },
            ArtworkChange::Replace { index, image } => ChangeModel::Replace {
                index: index as int,
                image: pixels(image),
            },
            ArtworkChange::Create { index, image } => ChangeModel::Create {
                index: index as int,
                image: pixels(image),
            },
        }
    }
}

impl ChannelModel {
    /// With the news of `update`. A picture's address is only remembered once the picture has
    /// been loaded; where loading failed the old one stays, and is tried again later. `drawable`
    /// tells whether a new picture can be shown.
    pub open spec fn updated(self, update: UpdateModel, drawable: bool) -> ChannelModel {
        let gone = update.artwork is None && update.artwork_url is None;
        ChannelModel {
            show: update.show,
            description: update.description,
            next_show: update.next_show,
            next_starts_at: update.next_starts_at,
            ends_at: update.ends_at,
            schedule: match update.schedule {
                Some(schedule) => schedule,
                None => self.schedule,
            },
            artwork_url: if update.artwork is Some {
                update.artwork_url
            } else if gone {
                None
            } else {
                self.artwork_url
            },
            artwork: if drawable && update.artwork is Some {
                true
            } else {
                self.artwork && !gone
            },
            stream: match update.stream {
                Some(stream) => stream,
                None => self.stream,
            },
            ..self
        }
    }

    /// What `update` changes in the pictures that are kept.
    pub open spec fn artwork_changes(self, update: UpdateModel, drawable: bool) -> Seq<
        ChangeModel,
    > {
        match update.artwork {
            Some(image) => if !drawable {
                Seq::empty()
            } else if self.artwork {
                seq![ChangeModel::Replace { index: update.index, image }]
            } else {
                seq![ChangeModel::Create { index: update.index, image }]
            },
            None => if update.artwork_url is None && self.artwork {
                seq![ChangeModel::Forget { index: update.index }]
            } else {
                Seq::empty()
            },
        }
    }
}

impl AppModel {
    /// Whether a new picture can be shown.
    pub open spec fn drawable(self) -> bool {
        self.supports_artwork && self.encoder
    }

    /// With the news of one channel. News of a channel that does not exist are dropped.
    pub open spec fn with_update(self, update: UpdateModel) -> AppModel {
        if 0 <= update.index < self.channels.len() {
            AppModel {
                channels: self.channels.update(
                    update.index,
                    self.channels[update.index].updated(update, self.drawable()),
                ),
                ..self
            }
        } else {
            self
        }
    }

    /// What the news of one channel change in the pictures that are kept.
    pub open spec fn update_changes(self, update: UpdateModel) -> Seq<ChangeModel> {
        if 0 <= update.index < self.channels.len() {
            self.channels[update.index].artwork_changes(update, self.drawable())
        } else {
            Seq::empty()
        }
    }

    /// With the news of some channels, one after the other.
    pub open spec fn with_updates(self, updates: Seq<UpdateModel>) -> AppModel
        decreases updates.len(),
    {
        if updates.len() == 0 {
            self
        } else {
            self.with_updates(updates.drop_last()).with_update(updates.last())
        }
    }

    /// What the news of some channels change in the pictures that are kept, in their order.
    pub open spec fn all_changes(self, updates: Seq<UpdateModel>) -> Seq<ChangeModel>
        decreases updates.len(),
    {
        if updates.len() == 0 {
            Seq::empty()
        } else {
            self.all_changes(updates.drop_last()) + self.with_updates(
                updates.drop_last(),
            ).update_changes(updates.last())
        }
    }

    /// With the news of one schedule.
    pub open spec fn with_schedule(self, update: ScheduleUpdateModel) -> AppModel {
        if 0 <= update.index < self.channels.len() {
            AppModel {
                channels: self.channels.update(
                    update.index,
                    ChannelModel {
                        schedule: update.schedule,
                        ..self.channels[update.index]
                    },
                ),
                ..self
            }
        } else {
            self
        }
    }

    /// With the news of some schedules, one after the other.
    pub open spec fn with_schedules(self, updates: Seq<ScheduleUpdateModel>) -> AppModel
        decreases updates.len(),
    {
        if updates.len() == 0 {
            self
        } else {
            self.with_schedules(updates.drop_last()).with_schedule(updates.last())
        }
    }
}

impl App {
    /// Takes the news of one channel.
    fn apply_channel_update(&mut self, update: ChannelUpdate, changes: &mut Vec<ArtworkChange>)
        ensures
            final(self)@ == old(self)@.with_update(update@),
            views(final(changes)@) == views(old(changes)@) + old(self)@.update_changes(update@),
            *final(self) == (App { channels: final(self).channels, ..*old(self) }),
    {
        let index = update.index;
        if index >= self.channels.len() {
            assert(views(changes@) =~= views(old(changes)@) + old(self)@.update_changes(update@));
            return;
        }
        let drawable = self.supports_artwork && self.encoder;
        let gone = update.artwork.is_none() && update.artwork_url.is_none();
        let channel = &mut self.channels[index];
        channel.show = update.show;
        channel.description = update.description;
        channel.next_show = update.next_show;
        channel.next_starts_at = update.next_starts_at;
        channel.ends_at = update.ends_at;
        if let Some(schedule) = update.schedule {
            channel.schedule = schedule;
        }
        if let Some(stream) = update.stream {
            channel.stream = stream;
        }
        let had_artwork = channel.artwork;
        match update.artwork {
            Some(image) => {
                channel.artwork_url = update.artwork_url;
                if drawable {
                    channel.artwork = true;
                    if had_artwork {
                        push_item(changes, ArtworkChange::Replace { index, image });
                    } else {
                        push_item(changes, ArtworkChange::Create { index, image });
                    }
                }
            },
            None => {
                if gone {
                    channel.artwork_url = None;
                    channel.artwork = false;
                    if had_artwork {
                        push_item(changes, ArtworkChange::Forget { index });
                    }
                }
            },
        }
        assert(self@.channels =~= old(self)@.with_update(update@).channels);
        assert(views(changes@) =~= views(old(changes)@) + old(self)@.update_changes(update@));
    }

    /// Takes the news of some channels. Returned is what becomes of the pictures.
    pub fn apply_channel_updates(&mut self, updates: Vec<ChannelUpdate>) -> (r: Vec<ArtworkChange>)
        ensures
            final(self)@ == old(self)@.with_updates(views(updates@)),
            views(r@) == old(self)@.all_changes(views(updates@)),
            old(self)@.wf() ==> final(self)@.wf(),
            *final(self) == (App { channels: final(self).channels, ..*old(self) }),
    {
        proof {
            law_channel_news_keep_what_is_steered(self@, views(updates@));
        }
        let mut changes: Vec<ArtworkChange> = Vec::new();
        let ghost all = views(updates@);
        assert(all.take(0) =~= Seq::empty());
        assert(views(changes@) =~= Seq::empty());
        for update in it: updates
            invariant
                all == views(it.seq()),
                self@ == old(self)@.with_updates(all.take(it.index())),
                views(changes@) == old(self)@.all_changes(all.take(it.index())),
                *self == (App { channels: self.channels, ..*old(self) }),
        {
            proof {
                assert(all.take(it.index() + 1).drop_last() =~= all.take(it.index()));
                assert(all.take(it.index() + 1).last() == update@);
            }
            self.apply_channel_update(update, &mut changes);
        }
        assert(all.take(all.len() as int) =~= all);
        changes
    }

    /// Takes the news of some schedules.
    pub fn apply_schedule_updates(&mut self, updates: Vec<ScheduleUpdate>)
        ensures
            final(self)@ == old(self)@.with_schedules(views(updates@)),
            old(self)@.wf() ==> final(self)@.wf(),
            *final(self) == (App { channels: final(self).channels, ..*old(self) }),
    {
        proof {
            law_schedule_news_keep_what_is_steered(self@, views(updates@));
        }
        let ghost all = views(updates@);
        assert(all.take(0) =~= Seq::empty());
        for update in it: updates
            invariant
                all == views(it.seq()),
                self@ == old(self)@.with_schedules(all.take(it.index())),
                *self == (App { channels: self.channels, ..*old(self) }),
        {
            let ghost before = self@;
            proof {
                assert(all.take(it.index() + 1).drop_last() =~= all.take(it.index()));
                assert(all.take(it.index() + 1).last() == update@);
            }
            if update.index < self.channels.len() {
                let index = update.index;
                self.channels[index].schedule = update.schedule;
            }
            assert(self@.channels =~= before.with_schedule(update@).channels);
        }
        assert(all.take(all.len() as int) =~= all);
    }
}

impl AppModel {
    /// Whether `other` is the same but for what the network tells of the stations: each station is
    /// the same one, and everything that the listener steers is untouched.
    pub open spec fn same_but_news(self, other: AppModel) -> bool {
        &&& other == (AppModel { channels: other.channels, ..self })
        &&& other.channels.len() == self.channels.len()
        &&& forall|i: int|
            0 <= i < self.channels.len() ==> {
                &&& (#[trigger] other.channels[i]).number == self.channels[i].number
                &&& other.channels[i].name == self.channels[i].name
                &&& other.channels[i].kind == self.channels[i].kind
            }
    }
}

/// News of channels change nothing but what they tell of the stations.
pub proof fn law_channel_news_keep_what_is_steered(m: AppModel, updates: Seq<UpdateModel>)
    ensures
        m.same_but_news(m.with_updates(updates)),
    decreases updates.len(),
{
    if updates.len() > 0 {
        law_channel_news_keep_what_is_steered(m, updates.drop_last());
    }
}

/// News of schedules change nothing but what they tell of the stations.
pub proof fn law_schedule_news_keep_what_is_steered(m: AppModel, updates: Seq<ScheduleUpdateModel>)
    ensures
        m.same_but_news(m.with_schedules(updates)),
    decreases updates.len(),
{
    if updates.len() > 0 {
        law_schedule_news_keep_what_is_steered(m, updates.drop_last());
    }
}

/// News of a channel that does not exist are dropped.
pub proof fn law_news_of_no_station_are_dropped(m: AppModel, update: UpdateModel)
    requires
        !(0 <= update.index < m.channels.len()),
    ensures
        m.with_updates(seq![update]) == m,
        m.all_changes(seq![update]).len() == 0,
{
    reveal_with_fuel(AppModel::with_updates, 2);
    reveal_with_fuel(AppModel::all_changes, 2);
    assert(seq![update].drop_last() =~= Seq::empty());
}

/// The same number of stations, the same few of them touched.
proof fn lemma_untouched(m: AppModel, updates: Seq<UpdateModel>, station: int)
    requires
        0 <= station < m.channels.len(),
        forall|j: int| 0 <= j < updates.len() ==> (#[trigger] updates[j]).index != station,
    ensures
        m.with_updates(updates).channels[station] == m.channels[station],
    decreases updates.len(),
{
    if updates.len() > 0 {
        let rest = updates.drop_last();
        assert forall|j: int| 0 <= j < rest.len() implies (#[trigger] rest[j]).index != station by {
            assert(rest[j] == updates[j]);
        }
        lemma_untouched(m, rest, station);
        law_channel_news_keep_what_is_steered(m, rest);
        assert(updates.last() == updates[updates.len() - 1]);
    }
}

/// A station after its last news.
proof fn lemma_last_news(m: AppModel, updates: Seq<UpdateModel>, i: int)
    requires
        0 <= i < updates.len(),
        0 <= updates[i].index < m.channels.len(),
        forall|j: int|
            i < j < updates.len() ==> (#[trigger] updates[j]).index != updates[i].index,
    ensures
        ({
            let station = updates[i].index;
            let before = m.with_updates(updates.take(i)).channels[station];
            m.with_updates(updates).channels[station] == before.updated(updates[i], m.drawable())
        }),
    decreases updates.len(),
{
    let rest = updates.drop_last();
    let station = updates[i].index;
    if i < rest.len() {
        assert forall|j: int| i < j < rest.len() implies (#[trigger] rest[j]).index
            != rest[i].index by {
            assert(rest[j] == updates[j]);
        }
        lemma_last_news(m, rest, i);
        assert(rest.take(i) =~= updates.take(i));
        assert(updates.last() == updates[updates.len() - 1]);
        law_channel_news_keep_what_is_steered(m, rest);
    } else {
        assert(updates.take(i) =~= rest);
        law_channel_news_keep_what_is_steered(m, rest);
    }
}

/// What no news tell of stays.
proof fn lemma_untold(m: AppModel, updates: Seq<UpdateModel>, station: int)
    requires
        0 <= station < m.channels.len(),
    ensures
        (forall|j: int|
            0 <= j < updates.len() && (#[trigger] updates[j]).index == station
                ==> updates[j].schedule is None) ==> m.with_updates(updates).channels[station].schedule
            == m.channels[station].schedule,
        (forall|j: int|
            0 <= j < updates.len() && (#[trigger] updates[j]).index == station
                ==> updates[j].stream is None) ==> m.with_updates(updates).channels[station].stream
            == m.channels[station].stream,
    decreases updates.len(),
{
    if updates.len() > 0 {
        let rest = updates.drop_last();
        assert(forall|j: int| 0 <= j < rest.len() ==> rest[j] == updates[j]);
        lemma_untold(m, rest, station);
        law_channel_news_keep_what_is_steered(m, rest);
        assert(updates.last() == updates[updates.len() - 1]);
    }
}

/// After some news a station that they tell of is as the last of them has it: its show, what is
/// said of it, what comes next and when, and when the show on air ends. Its schedule and its stream
/// are the last ones as well, where they are told, and stay where none of the news tells them. A
/// station that they do not tell of stays as it was.
pub proof fn law_a_station_is_as_it_was_last_told(
    app: &mut App,
    updates: Vec<ChannelUpdate>,
    r: Vec<ArtworkChange>,
    station: int,
)
    requires
        call_ensures(App::apply_channel_updates, (app, updates), r),
        0 <= station < old(app).channels@.len(),
    ensures
        final(app).channels@.len() == old(app).channels@.len(),
        forall|i: int|
            {
                &&& 0 <= i < updates@.len()
                &&& updates@[i].index == station
                &&& forall|j: int|
                    i < j < updates@.len() ==> (#[trigger] updates@[j]).index != station
            } ==> is_as_told(final(app).channels@[station], #[trigger] updates@[i]),
        (forall|j: int| 0 <= j < updates@.len() ==> (#[trigger] updates@[j]).index != station)
            ==> final(app).channels@[station]@ == old(app).channels@[station]@,
        (forall|j: int|
            0 <= j < updates@.len() && (#[trigger] updates@[j]).index == station
                ==> updates@[j].stream is None) ==> final(app).channels@[station].stream@
            == old(app).channels@[station].stream@,
        (forall|j: int|
            0 <= j < updates@.len() && (#[trigger] updates@[j]).index == station
                ==> updates@[j].schedule is None) ==> views(
            final(app).channels@[station].schedule@,
        ) == views(old(app).channels@[station].schedule@),
        final(app).channels@[station].number@ == old(app).channels@[station].number@,
        final(app).channels@[station].name@ == old(app).channels@[station].name@,
        final(app).channels@[station].kind == old(app).channels@[station].kind,
{
    lemma_as_told(*old(app), *final(app), updates@, station);
}

/// A station after some news.
pub(crate) proof fn lemma_as_told(before: App, after: App, updates: Seq<ChannelUpdate>, station: int)
    requires
        after@ == before@.with_updates(views(updates)),
        0 <= station < before.channels@.len(),
    ensures
        after.channels@.len() == before.channels@.len(),
        forall|i: int|
            {
                &&& 0 <= i < updates.len()
                &&& updates[i].index == station
                &&& forall|j: int|
                    i < j < updates.len() ==> (#[trigger] updates[j]).index != station
            } ==> is_as_told(after.channels@[station], #[trigger] updates[i]),
        (forall|j: int| 0 <= j < updates.len() ==> (#[trigger] updates[j]).index != station)
            ==> after.channels@[station]@ == before.channels@[station]@,
        (forall|j: int|
            0 <= j < updates.len() && (#[trigger] updates[j]).index == station
                ==> updates[j].stream is None) ==> after.channels@[station].stream@
            == before.channels@[station].stream@,
        (forall|j: int|
            0 <= j < updates.len() && (#[trigger] updates[j]).index == station
                ==> updates[j].schedule is None) ==> views(after.channels@[station].schedule@)
            == views(before.channels@[station].schedule@),
        after.channels@[station]@.number == before.channels@[station]@.number,
        after.channels@[station]@.name == before.channels@[station]@.name,
        after.channels@[station]@.kind == before.channels@[station]@.kind,
{
    let all = views(updates);
    law_channel_news_keep_what_is_steered(before@, all);
    assert(after@.channels[station] == after.channels@[station]@);
    assert(before@.channels[station] == before.channels@[station]@);
    assert forall|j: int| 0 <= j < all.len() implies (#[trigger] all[j]) == updates[j]@ by {}
    lemma_untold(before@, all, station);
    assert forall|i: int|
        {
            &&& 0 <= i < updates.len()
            &&& updates[i].index == station
            &&& forall|j: int| i < j < updates.len() ==> (#[trigger] updates[j]).index != station
        } implies is_as_told(after.channels@[station], #[trigger] updates[i]) by {
        assert(all[i] == updates[i]@);
        lemma_last_news(before@, all, i);
    }
    if forall|j: int| 0 <= j < updates.len() ==> (#[trigger] updates[j]).index != station {
        assert forall|j: int| 0 <= j < all.len() implies (#[trigger] all[j]).index != station by {
            assert(updates[j].index != station);
        }
        lemma_untouched(before@, all, station);
    }
}

/// After news of some schedules a station shows the last one that was told of it, and nothing else
/// of any station changes.
pub proof fn law_a_schedule_is_as_it_was_last_told(
    app: &mut App,
    updates: Vec<ScheduleUpdate>,
    station: int,
)
    requires
        call_ensures(App::apply_schedule_updates, (app, updates), ()),
        0 <= station < old(app).channels@.len(),
    ensures
        final(app).channels@.len() == old(app).channels@.len(),
        forall|i: int|
            {
                &&& 0 <= i < updates@.len()
                &&& updates@[i].index == station
                &&& forall|j: int|
                    i < j < updates@.len() ==> (#[trigger] updates@[j]).index != station
            } ==> views(final(app).channels@[station].schedule@) == views(
                (#[trigger] updates@[i]).schedule@,
            ),
        final(app).channels@[station]@ == (ChannelModel {
            schedule: views(final(app).channels@[station].schedule@),
            ..old(app).channels@[station]@
        }),
        (forall|j: int| 0 <= j < updates@.len() ==> (#[trigger] updates@[j]).index != station)
            ==> final(app).channels@[station]@ == old(app).channels@[station]@,
{
    let before = old(app)@;
    let all = views(updates@);
    law_schedule_news_keep_what_is_steered(before, all);
    law_schedule_news_change_only_schedules(before, all, station);
    assert(final(app)@.channels[station] == final(app).channels@[station]@);
    assert(before.channels[station] == old(app).channels@[station]@);
    assert forall|j: int| 0 <= j < all.len() implies (#[trigger] all[j]) == updates@[j]@ by {}
    assert forall|i: int|
        {
            &&& 0 <= i < updates@.len()
            &&& updates@[i].index == station
            &&& forall|j: int|
                i < j < updates@.len() ==> (#[trigger] updates@[j]).index != station
        } implies views(final(app).channels@[station].schedule@) == views(
        (#[trigger] updates@[i]).schedule@,
    ) by {
        assert(all[i] == updates@[i]@);
        assert forall|j: int| i < j < all.len() implies (#[trigger] all[j]).index != station by {
            assert(updates@[j].index != station);
        }
        lemma_last_schedule(before, all, i);
    }
    if forall|j: int| 0 <= j < updates@.len() ==> (#[trigger] updates@[j]).index != station {
        assert forall|j: int| 0 <= j < all.len() implies (#[trigger] all[j]).index != station by {
            assert(updates@[j].index != station);
        }
        lemma_untouched_schedule(before, all, station);
    }
}

/// A station that no schedule is told of.
proof fn lemma_untouched_schedule(m: AppModel, updates: Seq<ScheduleUpdateModel>, station: int)
    requires
        0 <= station < m.channels.len(),
        forall|j: int| 0 <= j < updates.len() ==> (#[trigger] updates[j]).index != station,
    ensures
        m.with_schedules(updates).channels[station] == m.channels[station],
    decreases updates.len(),
{
    if updates.len() > 0 {
        let rest = updates.drop_last();
        assert forall|j: int| 0 <= j < rest.len() implies (#[trigger] rest[j]).index != station by {
            assert(rest[j] == updates[j]);
        }
        lemma_untouched_schedule(m, rest, station);
        law_schedule_news_keep_what_is_steered(m, rest);
        assert(updates.last() == updates[updates.len() - 1]);
    }
}

/// A station after its last schedule.
proof fn lemma_last_schedule(m: AppModel, updates: Seq<ScheduleUpdateModel>, i: int)
    requires
        0 <= i < updates.len(),
        0 <= updates[i].index < m.channels.len(),
        forall|j: int|
            i < j < updates.len() ==> (#[trigger] updates[j]).index != updates[i].index,
    ensures
        m.with_schedules(updates).channels[updates[i].index].schedule == updates[i].schedule,
    decreases updates.len(),
{
    let rest = updates.drop_last();
    law_schedule_news_keep_what_is_steered(m, rest);
    if i < rest.len() {
        assert forall|j: int| i < j < rest.len() implies (#[trigger] rest[j]).index
            != rest[i].index by {
            assert(rest[j] == updates[j]);
        }
        lemma_last_schedule(m, rest, i);
        assert(updates.last() == updates[updates.len() - 1]);
    }
}

/// A picture is only taken where it can be shown: by a terminal with pictures, once they can be
/// scaled. Where it cannot, no station gets one, and none is to be made.
pub proof fn law_a_picture_is_taken_where_it_can_be_shown(
    app: &mut App,
    updates: Vec<ChannelUpdate>,
    r: Vec<ArtworkChange>,
    station: int,
)
    requires
        call_ensures(App::apply_channel_updates, (app, updates), r),
        0 <= station < old(app).channels@.len(),
    ensures
        !(old(app).supports_artwork && old(app).encoder) ==> {
            &&& final(app).channels@[station].artwork ==> old(app).channels@[station].artwork
            &&& forall|k: int| 0 <= k < r@.len() ==> (#[trigger] r@[k]) is Forget
        },
        old(app).supports_artwork && old(app).encoder ==> forall|i: int|
            {
                &&& 0 <= i < updates@.len()
                &&& updates@[i].index == station
                &&& updates@[i].artwork is Some
                &&& forall|j: int|
                    i < j < updates@.len() ==> (#[trigger] updates@[j]).index != station
            } ==> (#[trigger] updates@[i]).artwork is Some
                && final(app).channels@[station].artwork,
{
    let before = old(app)@;
    let all = views(updates@);
    law_channel_news_keep_what_is_steered(before, all);
    assert(final(app)@.channels[station] == final(app).channels@[station]@);
    assert(before.channels[station] == old(app).channels@[station]@);
    assert forall|j: int| 0 <= j < all.len() implies (#[trigger] all[j]) == updates@[j]@ by {}
    if !before.drawable() {
        lemma_no_pictures(before, all, station);
        let changes = views(r@);
        assert(changes.len() == r@.len());
        assert forall|k: int| 0 <= k < r@.len() implies (#[trigger] r@[k]) is Forget by {
            assert(changes[k] == r@[k]@);
        }
    } else {
        assert forall|i: int|
            {
                &&& 0 <= i < updates@.len()
                &&& updates@[i].index == station
                &&& updates@[i].artwork is Some
                &&& forall|j: int|
                    i < j < updates@.len() ==> (#[trigger] updates@[j]).index != station
            } implies (#[trigger] updates@[i]).artwork is Some
            && final(app).channels@[station].artwork by {
            assert(all[i] == updates@[i]@);
            assert forall|j: int| i < j < all.len() implies (#[trigger] all[j]).index
                != station by {
                assert(updates@[j].index != station);
            }
            lemma_last_news(before, all, i);
        }
    }
}

/// Where pictures cannot be shown, news bring none.
proof fn lemma_no_pictures(m: AppModel, updates: Seq<UpdateModel>, station: int)
    requires
        !m.drawable(),
        0 <= station < m.channels.len(),
    ensures
        m.with_updates(updates).channels[station].artwork ==> m.channels[station].artwork,
        forall|k: int|
            0 <= k < m.all_changes(updates).len() ==> (#[trigger] m.all_changes(updates)[k])
                is Forget,
    decreases updates.len(),
{
    if updates.len() > 0 {
        lemma_no_pictures(m, updates.drop_last(), station);
        law_channel_news_keep_what_is_steered(m, updates.drop_last());
    }
}

/// Whether `channel` is as `update` tells of it.
pub open spec fn is_as_told(channel: Channel, update: ChannelUpdate) -> bool {
    &&& channel.show@ == update.show@
    &&& channel.description@ == update.description@
    &&& channel.next_show@ == update.next_show@
    &&& channel.next_starts_at@ == update.next_starts_at@
    &&& opt_view(channel.ends_at) == opt_view(update.ends_at)
    &&& update.schedule matches Some(lines) ==> views(channel.schedule@) == views(lines@)
    &&& update.stream matches Some(stream) ==> channel.stream@ == stream@
    &&& update.artwork is Some ==> opt_view(channel.artwork_url) == opt_view(update.artwork_url)
}

/// News of a channel leave the other channels as they are.
pub proof fn law_news_touch_only_their_station(m: AppModel, update: UpdateModel, other: int)
    requires
        0 <= other < m.channels.len(),
        other != update.index,
    ensures
        m.with_update(update).channels[other] == m.channels[other],
{
}

/// News of schedules change nothing but schedules.
pub proof fn law_schedule_news_change_only_schedules(
    m: AppModel,
    updates: Seq<ScheduleUpdateModel>,
    i: int,
)
    requires
        0 <= i < m.channels.len(),
    ensures
        m.with_schedules(updates).channels[i] == (ChannelModel {
            schedule: m.with_schedules(updates).channels[i].schedule,
            ..m.channels[i]
        }),
    decreases updates.len(),
{
    law_schedule_news_keep_what_is_steered(m, updates);
    if updates.len() > 0 {
        law_schedule_news_keep_what_is_steered(m, updates.drop_last());
        law_schedule_news_change_only_schedules(m, updates.drop_last(), i);
    }
}

/// A picture that could not be loaded is not remembered as loaded: the station keeps the picture
/// that it has, and the new one is asked for again at the next refresh.
pub proof fn law_a_failed_picture_is_tried_again(
    channel: ChannelModel,
    update: UpdateModel,
    drawable: bool,
    medium: Seq<char>,
    thumb: Option<Seq<char>>,
)
    requires
        update.artwork is None,
        update.artwork_url is Some,
    ensures
        channel.updated(update, drawable).artwork_url == channel.artwork_url,
        channel.updated(update, drawable).artwork == channel.artwork,
        channel.artwork_changes(update, drawable).len() == 0,
        channel.artwork_url != Some(medium) ==> artwork_step(
            Some(medium),
            thumb,
            channel.updated(update, drawable).artwork_url,
            0,
        ) == StepModel::Fetch(medium),
{
}

/// A picture that was loaded is remembered, and not asked for again while the feed still names it.
pub proof fn law_a_loaded_picture_is_not_loaded_again(
    channel: ChannelModel,
    update: UpdateModel,
    drawable: bool,
    medium: Seq<char>,
    thumb: Option<Seq<char>>,
)
    requires
        update.artwork is Some,
        update.artwork_url == Some(medium),
    ensures
        channel.updated(update, drawable).artwork_url == Some(medium),
        artwork_step(Some(medium), thumb, channel.updated(update, drawable).artwork_url, 0)
            == StepModel::Settled(Some(medium)),
{
}

/// A channel whose news name no picture has none any more.
pub proof fn law_a_withdrawn_picture_is_forgotten(
    channel: ChannelModel,
    update: UpdateModel,
    drawable: bool,
)
    requires
        update.artwork is None,
        update.artwork_url is None,
    ensures
        channel.updated(update, drawable).artwork_url is None,
        !channel.updated(update, drawable).artwork,
{
}

/// Which pictures are kept after `change`. Each change fits what is kept before it.
pub open spec fn kept_after(kept: Seq<bool>, change: ChangeModel) -> Seq<bool> {
    match change {
        ChangeModel::Forget { index } => kept.update(index, false),
        ChangeModel::Replace { index, .. } => kept,
        ChangeModel::Create { index, .. } => kept.update(index, true),
    }
}

/// Whether `change` can be made where the pictures in `kept` are kept.
pub open spec fn change_fits(kept: Seq<bool>, change: ChangeModel) -> bool {
    match change {
        ChangeModel::Forget { index } => 0 <= index < kept.len() && kept[index],
        ChangeModel::Replace { index, .. } => 0 <= index < kept.len() && kept[index],
        ChangeModel::Create { index, .. } => 0 <= index < kept.len() && !kept[index],
    }
}

/// Which pictures are kept after `changes`, one after the other.
pub open spec fn kept_after_all(kept: Seq<bool>, changes: Seq<ChangeModel>) -> Seq<bool>
    decreases changes.len(),
{
    if changes.len() == 0 {
        kept
    } else {
        kept_after(kept_after_all(kept, changes.drop_last()), changes.last())
    }
}

/// Whether `changes` can be made, one after the other.
pub open spec fn changes_fit(kept: Seq<bool>, changes: Seq<ChangeModel>) -> bool
    decreases changes.len(),
{
    changes.len() == 0 || {
        &&& changes_fit(kept, changes.drop_last())
        &&& change_fits(kept_after_all(kept, changes.drop_last()), changes.last())
    }
}

impl AppModel {
    /// Which stations have a picture.
    pub open spec fn pictured(self) -> Seq<bool> {
        self.channels.map_values(|c: ChannelModel| c.artwork)
    }
}

/// Whoever keeps the pictures, and makes the changes that come with the news, keeps a picture for
/// exactly the stations that have one; and each change fits what is kept at that time.
pub proof fn law_pictures_follow_the_changes(m: AppModel, updates: Seq<UpdateModel>)
    ensures
        changes_fit(m.pictured(), m.all_changes(updates)),
        kept_after_all(m.pictured(), m.all_changes(updates)) == m.with_updates(updates).pictured(),
    decreases updates.len(),
{
    if updates.len() > 0 {
        let before = m.with_updates(updates.drop_last());
        let changes = m.all_changes(updates.drop_last());
        let update = updates.last();
        let more = before.update_changes(update);
        law_pictures_follow_the_changes(m, updates.drop_last());
        if more.len() == 0 {
            assert(changes + more =~= changes);
        } else {
            assert((changes + more).drop_last() =~= changes);
            assert((changes + more).last() == more[0]);
        }
        assert(kept_after_all(m.pictured(), changes + more) =~= before.with_update(
            update,
        ).pictured());
    }
}

/// Whether the picture of `change` is that of one of the news, for the station of those news.
pub open spec fn brought_by(change: ChangeModel, updates: Seq<UpdateModel>) -> bool {
    exists|i: int|
        0 <= i < updates.len() && match change {
            ChangeModel::Forget { index } => {
                &&& (#[trigger] updates[i]).index == index
                &&& updates[i].artwork is None
                &&& updates[i].artwork_url is None
            },
            ChangeModel::Replace { index, image } => {
                &&& updates[i].index == index
                &&& updates[i].artwork == Some(image)
            },
            ChangeModel::Create { index, image } => {
                &&& updates[i].index == index
                &&& updates[i].artwork == Some(image)
            },
        }
}

/// A station gets the picture that came with its own news, and loses it only by news that name
/// none.
pub proof fn law_a_picture_comes_with_its_news(m: AppModel, updates: Seq<UpdateModel>, k: int)
    requires
        0 <= k < m.all_changes(updates).len(),
    ensures
        brought_by(m.all_changes(updates)[k], updates),
    decreases updates.len(),
{
    let rest = updates.drop_last();
    let earlier = m.all_changes(rest);
    if updates.len() > 0 {
        let change = m.all_changes(updates)[k];
        if k < earlier.len() {
            law_a_picture_comes_with_its_news(m, rest, k);
            assert(change == earlier[k]);
            let i = choose|i: int|
                0 <= i < rest.len() && match change {
                    ChangeModel::Forget { index } => {
                        &&& (#[trigger] rest[i]).index == index
                        &&& rest[i].artwork is None
                        &&& rest[i].artwork_url is None
                    },
                    ChangeModel::Replace { index, image } => {
                        &&& rest[i].index == index
                        &&& rest[i].artwork == Some(image)
                    },
                    ChangeModel::Create { index, image } => {
                        &&& rest[i].index == index
                        &&& rest[i].artwork == Some(image)
                    },
                };
            assert(updates[i] == rest[i]);
        } else {
            assert(updates[updates.len() - 1] == updates.last());
        }
    }
}

/// A terminal without pictures never gets one: no news give a station a picture.
pub proof fn law_text_terminals_get_no_pictures(m: AppModel, updates: Seq<UpdateModel>)
    requires
        !m.supports_artwork,
        forall|i: int| 0 <= i < m.channels.len() ==> !(#[trigger] m.channels[i]).artwork,
    ensures
        forall|i: int|
            0 <= i < m.channels.len() ==> !(#[trigger] m.with_updates(updates).channels[i]).artwork,
        m.all_changes(updates).len() == 0,
    decreases updates.len(),
{
    if updates.len() > 0 {
        law_text_terminals_get_no_pictures(m, updates.drop_last());
        law_channel_news_keep_what_is_steered(m, updates.drop_last());
    }
}

} // verus!
