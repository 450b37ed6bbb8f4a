use vstd::prelude::*;
use vstd::string::*;

verus! {

/// Whether `s` is one syntactically valid JSON document, as serde_json reads it.
pub uninterp spec fn json_valid(s: Seq<char>) -> bool;

/// Relies on serde_json::from_str into serde_json::Value: it succeeds exactly
/// on the texts that hold one valid JSON document, and that depends on the
/// text alone.
#[verifier::external_body]
fn parses_as_json(s: &str) -> (r: bool)
    ensures
        r == json_valid(s@),
{
    serde_json::from_str::<serde_json::Value>(s).is_ok()
}

/// The JSON text served in place of a stored document that is not valid JSON.
pub open spec fn empty_object() -> Seq<char> {
    "{}"@
}

/// What a read of the settings serves when `stored` is the stored document.
pub open spec fn served(stored: Seq<char>) -> Seq<char> {
    if json_valid(stored) {
        stored
    } else {
        empty_object()
    }
}

/// The settings document that one run of the control server shares between
/// its requests, kept as JSON text.
pub struct SettingsStore {
    text: String,
}

impl View for SettingsStore {
    type V = Seq<char>;

    closed spec fn view(&self) -> Seq<char> {
        self.text@
    }
}

impl SettingsStore {
    /// A store that holds `initial` as it was given.
    pub fn new(initial: String) -> (r: Self)
        ensures
            r@ == initial@,
    {
        SettingsStore { text: initial }
    }

    /// The document that a read serves: the stored text where it is valid
    /// JSON, and an empty JSON object otherwise, so that a damaged store
    /// never makes a read fail.
    pub fn read(&self) -> (r: String)
        ensures
            r@ == served(self@),
    {
        if parses_as_json(self.text.as_str()) {
            self.text.clone()
        } else {
            String::from_str("{}")
        }
    }

    /// Replaces the stored document with `text`, the serialized form of a
    /// posted JSON body.
    pub fn update(&mut self, text: String)
        ensures
            final(self)@ == text@,
    {
        self.text = text;
    }
}

/// A read that follows an update with a valid JSON document serves that
/// document back unchanged.
pub proof fn lemma_update_then_read(after: SettingsStore, text: Seq<char>)
    requires
        json_valid(text),
        after@ == text,
    ensures
        served(after@) == text,
{
}

/// Whatever was stored, a read serves valid JSON or the empty object, and a
/// stored text that is not valid JSON is served as the empty object.
pub proof fn lemma_damaged_store_reads_empty(stored: Seq<char>)
    ensures
        !json_valid(stored) ==> served(stored) == empty_object(),
        json_valid(stored) ==> served(stored) == stored,
{
}

} // verus!
