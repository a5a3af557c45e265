use vstd::prelude::*;

verus! {

/// Why a feed cannot be turned into a table.
#[derive(Clone, Copy, Debug, PartialEq, Eq, Structural)]
pub enum GuideError {
    /// A start or stop time does not follow the timestamp format.
    MalformedTimestamp,
    /// A channel id is carried by no channel of the feed.
    UnknownChannel,
}

impl GuideError {
    /// The words for this error.
    pub open spec fn text(self) -> Seq<char> {
        match self {
            GuideError::MalformedTimestamp => "a programme time does not follow the timestamp format"@,
            GuideError::UnknownChannel => "a programme names a channel that the feed does not list"@,
        }
    }

    /// The words for this error, for a diagnostic.
    pub fn message(&self) -> (words: String)
        ensures
            words@ == self.text(),
    {
        match self {
            GuideError::MalformedTimestamp => {
                "a programme time does not follow the timestamp format".to_owned()
            },
            GuideError::UnknownChannel => {
                "a programme names a channel that the feed does not list".to_owned()
            },
        }
    }
}

} // verus!
