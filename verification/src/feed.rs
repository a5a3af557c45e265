use vstd::prelude::*;

verus! {

/// A channel as the feed lists it.
#[derive(Debug, PartialEq, Eq)]
pub struct XMLChannel {
    pub id: String,
    pub display_name: String,
}

/// A programme as the feed lists it: its times are still text.
#[derive(Debug, PartialEq, Eq)]
pub struct XMLProgram {
    pub start: String,
    pub stop: String,
    pub channel: String,
    pub title: String,
}

/// A whole feed: its channels and its programmes, each in document order.
#[derive(Debug, PartialEq, Eq)]
pub struct Xml {
    pub channels: Vec<XMLChannel>,
    pub programs: Vec<XMLProgram>,
}

/// What an [`XMLChannel`] says.
pub struct ChannelModel {
    pub id: Seq<char>,
    pub display_name: Seq<char>,
}

/// What an [`XMLProgram`] says.
pub struct RawProgramModel {
    pub start: Seq<char>,
    pub stop: Seq<char>,
    pub channel: Seq<char>,
    pub title: Seq<char>,
}

/// What an [`Xml`] says.
pub struct FeedModel {
    pub channels: Seq<ChannelModel>,
    pub programs: Seq<RawProgramModel>,
}

impl View for XMLChannel {
    type V = ChannelModel;

    open spec fn view(&self) -> ChannelModel {
        ChannelModel { id: self.id@, display_name: self.display_name@ }
    }
}

impl Clone for XMLChannel {
    fn clone(&self) -> (copy: Self)
        ensures
            copy@ == self@,
    {
        XMLChannel { id: self.id.clone(), display_name: self.display_name.clone() }
    }
}

impl DeepView for XMLChannel {
    type V = ChannelModel;

    open spec fn deep_view(&self) -> ChannelModel {
        self@
    }
}

impl View for XMLProgram {
    type V = RawProgramModel;

    open spec fn view(&self) -> RawProgramModel {
        RawProgramModel {
            start: self.start@,
            stop: self.stop@,
            channel: self.channel@,
            title: self.title@,
        }
    }
}

impl DeepView for XMLProgram {
    type V = RawProgramModel;

    open spec fn deep_view(&self) -> RawProgramModel {
        self@
    }
}

impl View for Xml {
    type V = FeedModel;

    open spec fn view(&self) -> FeedModel {
        FeedModel {
            channels: self.channels.deep_view(),
            programs: self.programs.deep_view(),
        }
    }
}

impl DeepView for Xml {
    type V = FeedModel;

    open spec fn deep_view(&self) -> FeedModel {
        self@
    }
}

} // verus!
