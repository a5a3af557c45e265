use crate::channels::{
    channel_id_to_name, channel_ids, channel_name, filter_channel_ids, whitelisted,
    whitelisted_ids,
};
use crate::error::GuideError;
use crate::evening::{evening_window, in_evening_window};
use crate::feed::{ChannelModel, FeedModel, RawProgramModel, XMLChannel, XMLProgram, Xml};
use crate::text::str_eq;
use crate::timestamp::{
    local_today, parse_timestamp, parsed_timestamp, Date, Timestamp, TIMESTAMP_FORMAT,
};
use vstd::prelude::*;

verus! {

/// A programme ready to be shown: its times are read and its channel is named.
#[derive(Debug, PartialEq, Eq)]
pub struct Program {
    pub start: Timestamp,
    pub end: Timestamp,
    pub title: String,
    pub channel: String,
}

/// What a [`Program`] says.
pub struct ProgramModel {
    pub start: Timestamp,
    pub end: Timestamp,
    pub title: Seq<char>,
    pub channel: Seq<char>,
}

impl View for Program {
    type V = ProgramModel;

    open spec fn view(&self) -> ProgramModel {
        ProgramModel {
            start: self.start,
            end: self.end,
            title: self.title@,
            channel: self.channel@,
        }
    }
}

impl DeepView for Program {
    type V = ProgramModel;

    open spec fn deep_view(&self) -> ProgramModel {
        self@
    }
}

/// The start of `p` as a timestamp, where its text reads as one.
pub open spec fn starts(p: RawProgramModel) -> Option<Timestamp> {
    parsed_timestamp(p.start, TIMESTAMP_FORMAT@)
}

/// The stop of `p` as a timestamp, where its text reads as one.
pub open spec fn stops(p: RawProgramModel) -> Option<Timestamp> {
    parsed_timestamp(p.stop, TIMESTAMP_FORMAT@)
}

/// Whether the channel id of `p` is that of a whitelisted channel among `channels`.
pub open spec fn on_whitelisted_channel(channels: Seq<ChannelModel>, p: RawProgramModel) -> bool {
    whitelisted_ids(channels).contains(p.channel)
}

/// Whether one of the two times of `p` does not read as a timestamp.
pub open spec fn malformed(p: RawProgramModel) -> bool {
    starts(p) is None || stops(p) is None
}

/// Whether `p` is shown: it is on a whitelisted channel, both its times read as timestamps,
/// and they make it an evening programme of `today`.
pub open spec fn kept(channels: Seq<ChannelModel>, today: Date, p: RawProgramModel) -> bool {
    &&& on_whitelisted_channel(channels, p)
    &&& starts(p) matches Some(start)
    &&& stops(p) matches Some(end)
    &&& evening_window(start, end, today)
}

/// How a kept `p` is shown: with its times read and the display name of its channel.
pub open spec fn shown_as(channels: Seq<ChannelModel>, p: RawProgramModel) -> ProgramModel {
    ProgramModel {
        start: starts(p).unwrap(),
        end: stops(p).unwrap(),
        title: p.title,
        channel: channel_name(channels, p.channel).unwrap(),
    }
}

/// What becomes of `p`, a programme on a whitelisted channel, once its two times are read as
/// `start` and `end`: an error where either did not read as a timestamp; nothing where the
/// two do not make it an evening programme of `today`; else the programme as it is shown,
/// or an error where no channel carries its channel id.
pub open spec fn showing(
    channels: Seq<ChannelModel>,
    today: Date,
    p: RawProgramModel,
    start: Option<Timestamp>,
    end: Option<Timestamp>,
) -> Result<Option<ProgramModel>, GuideError> {
    match (start, end) {
        (Some(start), Some(end)) => if evening_window(start, end, today) {
            match channel_name(channels, p.channel) {
                Some(name) => Ok(Some(ProgramModel { start, end, title: p.title, channel: name })),
                None => Err(GuideError::UnknownChannel),
            }
        } else {
            Ok(None)
        },
        _ => Err(GuideError::MalformedTimestamp),
    }
}

/// What a result of [`show_program`] says.
pub open spec fn shown(result: Result<Option<Program>, GuideError>) -> Result<
    Option<ProgramModel>,
    GuideError,
> {
    match result {
        Ok(Some(program)) => Ok(Some(program@)),
        Ok(None) => Ok(None),
        Err(e) => Err(e),
    }
}

/// Whether `feed` is refused as a whole: some programme on a whitelisted channel has a time
/// that does not read as a timestamp. Programmes on other channels are never read.
pub open spec fn refused(feed: FeedModel) -> bool {
    exists|i: int|
        0 <= i < feed.programs.len() && on_whitelisted_channel(
            feed.channels,
            #[trigger] feed.programs[i],
        ) && malformed(feed.programs[i])
}

/// The evening programmes of `today` in `feed`, in the order of the feed.
pub open spec fn evening_programs(feed: FeedModel, today: Date) -> Seq<ProgramModel> {
    feed.programs.filter(|p: RawProgramModel| kept(feed.channels, today, p)).map_values(
        |p: RawProgramModel| shown_as(feed.channels, p),
    )
}

/// What [`filter_programs_on`] answers for `feed` and `today`.
pub open spec fn evening_guide(feed: FeedModel, today: Date) -> Result<
    Seq<ProgramModel>,
    GuideError,
> {
    if refused(feed) {
        Err(GuideError::MalformedTimestamp)
    } else {
        Ok(evening_programs(feed, today))
    }
}

/// What a result of filtering says.
pub open spec fn outcome(result: Result<Vec<Program>, GuideError>) -> Result<
    Seq<ProgramModel>,
    GuideError,
> {
    match result {
        Ok(programs) => Ok(programs.deep_view()),
        Err(e) => Err(e),
    }
}

/// Whether `id` is one of `ids`.
pub fn contains_id(ids: &Vec<String>, id: &str) -> (found: bool)
    ensures
        found == ids.deep_view().contains(id@),
{
    let mut i: usize = 0;
    while i < ids.len()
        invariant
            i <= ids.len(),
            forall|j: int| 0 <= j < i ==> ids.deep_view()[j] != id@,
        decreases ids.len() - i,
    {
        assert(ids.deep_view()[i as int] == ids[i as int]@);
        if str_eq(ids[i].as_str(), id) {
            return true;
        }
        i += 1;
    }
    false
}

/// Decides what becomes of `program` once its two times are read, `None` standing for a
/// text that did not read as a timestamp: see [`showing`].
pub fn show_program(
    program: &XMLProgram,
    start: Option<Timestamp>,
    end: Option<Timestamp>,
    channels: &Vec<XMLChannel>,
    today: Date,
) -> (result: Result<Option<Program>, GuideError>)
    ensures
        shown(result) == showing(channels.deep_view(), today, program@, start, end),
{
    let (start, end) = match (start, end) {
        (Some(start), Some(end)) => (start, end),
        _ => {
            return Err(GuideError::MalformedTimestamp);
        },
    };
    if !in_evening_window(&start, &end, today) {
        return Ok(None);
    }
    match channel_id_to_name(program.channel.as_str(), channels) {
        Ok(name) => Ok(
            Some(Program { start, end, title: program.title.clone(), channel: name.to_owned() }),
        ),
        Err(e) => Err(e),
    }
}

/// An id of a whitelisted channel is the id of a channel, so its name can be looked up.
pub proof fn lemma_whitelisted_id_resolves(channels: Seq<ChannelModel>, id: Seq<char>)
    requires
        whitelisted_ids(channels).contains(id),
    ensures
        channel_name(channels, id) is Some,
{
    let listed = |c: ChannelModel| whitelisted(c.display_name);
    let chosen = channels.filter(listed);
    let m = choose|m: int| 0 <= m < channel_ids(chosen).len() && channel_ids(chosen)[m] == id;
    channels.lemma_filter_contains_rev(listed, chosen[m]);
    let k = choose|k: int| 0 <= k < channels.len() && channels[k] == chosen[m];
    assert(channel_ids(channels)[k] == id);
    channel_ids(channels).index_of_first_ensures(id);
}

/// An evening programme whose channel id no channel of the feed carries is an error: it is
/// not dropped in silence.
pub proof fn lemma_unknown_channel_is_an_error(
    channels: Seq<ChannelModel>,
    today: Date,
    p: RawProgramModel,
    start: Timestamp,
    end: Timestamp,
)
    requires
        evening_window(start, end, today),
        forall|k: int| 0 <= k < channels.len() ==> (#[trigger] channels[k]).id != p.channel,
    ensures
        showing(channels, today, p, Some(start), Some(end)) == Err::<
            Option<ProgramModel>,
            GuideError,
        >(GuideError::UnknownChannel),
{
    channel_ids(channels).index_of_first_ensures(p.channel);
}

/// No programme is shown for a channel outside the whitelist: where every channel that
/// carries the channel id of `p` has a display name outside the whitelist, `p` is not kept,
/// whatever its times are.
pub proof fn lemma_unlisted_channel_excluded(
    channels: Seq<ChannelModel>,
    today: Date,
    p: RawProgramModel,
)
    requires
        forall|k: int|
            0 <= k < channels.len() && (#[trigger] channels[k]).id == p.channel ==> !whitelisted(
                channels[k].display_name,
            ),
    ensures
        !kept(channels, today, p),
{
    let listed = |c: ChannelModel| whitelisted(c.display_name);
    let chosen = channels.filter(listed);
    if whitelisted_ids(channels).contains(p.channel) {
        let m = choose|m: int|
            0 <= m < channel_ids(chosen).len() && channel_ids(chosen)[m] == p.channel;
        channels.lemma_filter_contains_rev(listed, chosen[m]);
    }
}

/// A programme that starts on another day than `today` is not kept.
pub proof fn lemma_other_day_not_kept(
    channels: Seq<ChannelModel>,
    today: Date,
    p: RawProgramModel,
)
    requires
        starts(p) matches Some(start) && start.date() != today,
    ensures
        !kept(channels, today, p),
{
}

/// Where no two channels of a feed share an id, every programme shown carries the display
/// name of a whitelisted channel.
pub proof fn lemma_shown_names_whitelisted(feed: FeedModel, today: Date, row: int)
    requires
        channel_ids(feed.channels).no_duplicates(),
        0 <= row < evening_programs(feed, today).len(),
    ensures
        whitelisted(evening_programs(feed, today)[row].channel),
{
    let channels = feed.channels;
    let keep = |p: RawProgramModel| kept(channels, today, p);
    let listed = |c: ChannelModel| whitelisted(c.display_name);
    let p = feed.programs.filter(keep)[row];
    let chosen = channels.filter(listed);
    let m = choose|m: int|
        0 <= m < channel_ids(chosen).len() && channel_ids(chosen)[m] == p.channel;
    channels.lemma_filter_contains_rev(listed, chosen[m]);
    let k = choose|k: int| 0 <= k < channels.len() && channels[k] == chosen[m];
    let ids = channel_ids(channels);
    ids.index_of_first_ensures(p.channel);
    let first = ids.index_of_first(p.channel).unwrap();
    assert(ids[first] == ids[k]);
}

/// Every row shows a programme of the feed that is kept.
pub proof fn lemma_row_shows_kept_program(feed: FeedModel, today: Date, row: int)
    requires
        0 <= row < evening_programs(feed, today).len(),
    ensures
        exists|i: int|
            0 <= i < feed.programs.len() && kept(feed.channels, today, #[trigger] feed.programs[i])
                && evening_programs(feed, today)[row] == shown_as(feed.channels, feed.programs[i]),
{
    let keep = |p: RawProgramModel| kept(feed.channels, today, p);
    let chosen = feed.programs.filter(keep);
    feed.programs.lemma_filter_pred(keep, row);
    feed.programs.lemma_filter_contains_rev(keep, chosen[row]);
    let i = choose|i: int| 0 <= i < feed.programs.len() && feed.programs[i] == chosen[row];
    assert(kept(feed.channels, today, feed.programs[i]));
}

/// Every kept programme of the feed has a row.
pub proof fn lemma_kept_program_has_row(feed: FeedModel, today: Date, i: int)
    requires
        0 <= i < feed.programs.len(),
        kept(feed.channels, today, feed.programs[i]),
    ensures
        evening_programs(feed, today).contains(shown_as(feed.channels, feed.programs[i])),
{
    let keep = |p: RawProgramModel| kept(feed.channels, today, p);
    let chosen = feed.programs.filter(keep);
    feed.programs.lemma_filter_contains(keep, i);
    let row = choose|row: int| 0 <= row < chosen.len() && chosen[row] == feed.programs[i];
    assert(evening_programs(feed, today)[row] == shown_as(feed.channels, feed.programs[i]));
}

/// The evening programmes of `today` among those of `xml`, in the order of the feed, each
/// with the display name of its channel.
///
/// A programme is looked at only if its channel id is that of a whitelisted channel. Both
/// times of such a programme must read as timestamps, or the whole feed is refused.
pub fn filter_programs_on(xml: &Xml, today: Date) -> (result: Result<Vec<Program>, GuideError>)
    ensures
        outcome(result) == evening_guide(xml@, today),
{
    let ghost feed = xml@;
    let ghost channels = feed.channels;
    let ghost keep = |p: RawProgramModel| kept(channels, today, p);
    let ghost show = |p: RawProgramModel| shown_as(channels, p);
    let ids = filter_channel_ids(&xml.channels);
    let mut programs: Vec<Program> = Vec::new();
    let mut i: usize = 0;
    while i < xml.programs.len()
        invariant
            i <= xml.programs.len(),
            feed == xml@,
            channels == feed.channels,
            keep == |p: RawProgramModel| kept(channels, today, p),
            show == |p: RawProgramModel| shown_as(channels, p),
            ids.deep_view() == whitelisted_ids(channels),
            forall|j: int|
                0 <= j < i ==> !(on_whitelisted_channel(channels, #[trigger] feed.programs[j])
                    && malformed(feed.programs[j])),
            programs.deep_view() == feed.programs.take(i as int).filter(keep).map_values(show),
        decreases xml.programs.len() - i,
    {
        let program = &xml.programs[i];
        let ghost p = feed.programs[i as int];
        let ghost before = programs.deep_view();
        proof {
            assert(feed.programs.take(i + 1) =~= feed.programs.take(i as int) + seq![p]);
            reveal_with_fuel(Seq::filter, 2);
        }
        if contains_id(&ids, program.channel.as_str()) {
            let start = parse_timestamp(program.start.as_str());
            let end = parse_timestamp(program.stop.as_str());
            proof {
                lemma_whitelisted_id_resolves(channels, p.channel);
            }
            match show_program(program, start, end, &xml.channels, today) {
                Ok(Some(program)) => {
                    programs.push(program);
                    assert(feed.programs.take(i + 1).filter(keep).map_values(show)
                        =~= before.push(show(p)));
                },
                Ok(None) => {},
                Err(e) => {
                    return Err(e);
                },
            }
        }
        i += 1;
    }
    assert(feed.programs.take(i as int) =~= feed.programs);
    Ok(programs)
}

/// The evening programmes of the day on which the call is made, among those of `xml`: what
/// [`filter_programs_on`] answers for the local date that the system clock gives.
pub fn filter_programs(xml: &Xml) -> (result: Result<Vec<Program>, GuideError>)
    ensures
        exists|today: Date| outcome(result) == #[trigger] evening_guide(xml@, today),
{
    let today = local_today();
    filter_programs_on(xml, today)
}

} // verus!
