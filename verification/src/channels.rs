use crate::error::GuideError;
use crate::feed::{ChannelModel, XMLChannel};
use crate::text::str_eq;
use vstd::prelude::*;

verus! {

/// The display names of the channels that the guide shows. A name counts only where it is
/// spelled exactly like this, letter case and accents included.
pub const CHANNELS: [&'static str; 19] = [
    "TF1",
    "France 2",
    "France 3",
    "Canal+",
    "France 5",
    "M6",
    "Arte",
    "C8",
    "W9",
    "TMC",
    "TFX",
    "NRJ 12",
    "France 4",
    "CSTAR",
    "L'Equipe",
    "6ter",
    "RMC Story",
    "RMC Découverte",
    "Chérie 25",
];

/// Whether `name` is one of [`CHANNELS`].
pub open spec fn whitelisted(name: Seq<char>) -> bool {
    exists|k: int| 0 <= k < 19 && (#[trigger] CHANNELS[k])@ == name
}

/// The ids of `channels`, in their order.
pub open spec fn channel_ids(channels: Seq<ChannelModel>) -> Seq<Seq<char>> {
    channels.map_values(|c: ChannelModel| c.id)
}

/// The ids of those of `channels` whose display name is whitelisted, in their order.
pub open spec fn whitelisted_ids(channels: Seq<ChannelModel>) -> Seq<Seq<char>> {
    channel_ids(channels.filter(|c: ChannelModel| whitelisted(c.display_name)))
}

/// The display name of the first of `channels` that carries `id`, if any does.
pub open spec fn channel_name(channels: Seq<ChannelModel>, id: Seq<char>) -> Option<Seq<char>> {
    match channel_ids(channels).index_of_first(id) {
        Some(k) => Some(channels[k].display_name),
        None => None,
    }
}

/// Whether `name` is one of [`CHANNELS`].
pub fn is_whitelisted(name: &str) -> (listed: bool)
    ensures
        listed == whitelisted(name@),
{
    let mut k: usize = 0;
    while k < 19
        invariant
            k <= 19,
            forall|j: int| 0 <= j < k ==> (#[trigger] CHANNELS[j])@ != name@,
        decreases 19 - k,
    {
        if str_eq(CHANNELS[k], name) {
            return true;
        }
        k += 1;
    }
    false
}

/// The ids of the whitelisted channels among `channels`, in their order. A channel whose
/// display name is not whitelisted leaves no trace.
pub fn filter_channel_ids(channels: &Vec<XMLChannel>) -> (ids: Vec<String>)
    ensures
        ids.deep_view() == whitelisted_ids(channels.deep_view()),
{
    let ghost all = channels.deep_view();
    let ghost listed = |c: ChannelModel| whitelisted(c.display_name);
    let mut ids: Vec<String> = Vec::new();
    let mut i: usize = 0;
    while i < channels.len()
        invariant
            i <= channels.len(),
            all == channels.deep_view(),
            listed == |c: ChannelModel| whitelisted(c.display_name),
            ids.deep_view() == channel_ids(all.take(i as int).filter(listed)),
        decreases channels.len() - i,
    {
        let channel = &channels[i];
        let ghost before = ids.deep_view();
        proof {
            assert(all.take(i + 1) =~= all.take(i as int) + seq![all[i as int]]);
            reveal_with_fuel(Seq::filter, 2);
        }
        if is_whitelisted(channel.display_name.as_str()) {
            ids.push(channel.id.clone());
            assert(channel_ids(all.take(i + 1).filter(listed)) =~= before.push(channel.id@));
        }
        i += 1;
    }
    assert(all.take(i as int) =~= all);
    ids
}

/// The display name of the channel that carries `channel_id`: that of the first such
/// channel, should several carry it. An id that no channel carries is an error.
pub fn channel_id_to_name<'a>(channel_id: &str, channels: &'a Vec<XMLChannel>) -> (found: Result<
    &'a str,
    GuideError,
>)
    ensures
        match found {
            Ok(name) => channel_name(channels.deep_view(), channel_id@) == Some(name@),
            Err(e) => e == GuideError::UnknownChannel && channel_name(
                channels.deep_view(),
                channel_id@,
            ) is None,
        },
{
    let ghost ids = channel_ids(channels.deep_view());
    let mut i: usize = 0;
    while i < channels.len()
        invariant
            i <= channels.len(),
            ids == channel_ids(channels.deep_view()),
            forall|j: int| 0 <= j < i ==> ids[j] != channel_id@,
        decreases channels.len() - i,
    {
        let channel = &channels[i];
        assert(ids[i as int] == channel.id@);
        if str_eq(channel.id.as_str(), channel_id) {
            proof {
                ids.index_of_first_ensures(channel_id@);
            }
            return Ok(channel.display_name.as_str());
        }
        i += 1;
    }
    proof {
        ids.index_of_first_ensures(channel_id@);
    }
    Err(GuideError::UnknownChannel)
}

} // verus!
