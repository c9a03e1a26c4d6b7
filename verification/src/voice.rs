//! The voices that an engine offers.

use oxilangtag::LanguageTag;
use unic_langid::LanguageIdentifier;
use vstd::prelude::*;

verus! {

/// Whether `tag` is a well-formed language tag.
pub uninterp spec fn language_tag_parses(tag: Seq<char>) -> bool;

/// Asks `oxilangtag::LanguageTag::parse` whether it accepts `tag`. The parser
/// reads nothing but its argument, so its verdict on a given text is always
/// the same: the contract gives that verdict a name and claims no more.
#[verifier::external_body]
fn check_language_tag(tag: &str) -> (accepted: bool)
    ensures
        accepted == language_tag_parses(tag@),
{
    LanguageTag::parse(tag).is_ok()
}

/// The text of `tag` as a Unicode language identifier, in the form in which
/// such identifiers are written out, where `tag` is one.
pub uninterp spec fn language_identifier_text(tag: Seq<char>) -> Option<Seq<char>>;

/// Reads `tag` with `unic_langid::LanguageIdentifier::from_str` and writes
/// the identifier out again with its `Display`. Both read nothing but what
/// they are given, so the text that comes of a given tag is always the
/// same: the contract gives that text a name and claims no more.
#[verifier::external_body]
fn write_language_identifier(tag: &str) -> (text: Option<String>)
    ensures
        text is Some <==> language_identifier_text(tag@) is Some,
        text matches Some(t) ==> language_identifier_text(tag@) == Some(t@),
{
    match tag.parse::<LanguageIdentifier>() {
        Ok(identifier) => Some(identifier.to_string()),
        Err(_) => None,
    }
}

/// The gender that an engine reports of a voice.
#[derive(Clone, Copy, Debug, PartialEq, Eq, PartialOrd, Ord, Hash, Structural)]
pub enum Gender {
    Male,
    Female,
}

/// One voice of an engine: the identifier by which the engine knows it, the
/// name to show, the gender if the engine tells it, and the language as a
/// well-formed language tag.
#[derive(Debug)]
pub struct Voice {
    id: String,
    name: String,
    gender: Option<Gender>,
    language: String,
}

/// What a [`Voice`] holds.
pub struct VoiceView {
    pub id: Seq<char>,
    pub name: Seq<char>,
    pub gender: Option<Gender>,
    pub language: Seq<char>,
}

impl View for Voice {
    type V = VoiceView;

    closed spec fn view(&self) -> VoiceView {
        VoiceView {
            id: self.id@,
            name: self.name@,
            gender: self.gender,
            language: self.language@,
        }
    }
}

impl Voice {
    #[verifier::type_invariant]
    spec fn language_is_well_formed(self) -> bool {
        language_tag_parses(self.language@)
    }

    /// The voice with these properties, where `language` is a well-formed
    /// language tag, and nothing where it is not.
    pub fn new(id: String, name: String, gender: Option<Gender>, language: String) -> (voice:
        Option<Voice>)
        ensures
            voice is Some <==> language_tag_parses(language@),
            voice matches Some(v) ==> v@ == (VoiceView {
                id: id@,
                name: name@,
                gender,
                language: language@,
            }),
    {
        let well_formed = check_language_tag(language.as_str());
        Voice::checked(id, name, gender, language, well_formed)
    }

    /// The voice with these properties, where its language was found to be
    /// well formed, and nothing where it was not.
    pub fn checked(
        id: String,
        name: String,
        gender: Option<Gender>,
        language: String,
        well_formed: bool,
    ) -> (voice: Option<Voice>)
        requires
            well_formed ==> language_tag_parses(language@),
        ensures
            voice is Some <==> well_formed,
            voice matches Some(v) ==> v@ == (VoiceView {
                id: id@,
                name: name@,
                gender,
                language: language@,
            }),
    {
        if well_formed {
            Some(Voice { id, name, gender, language })
        } else {
            None
        }
    }

    /// The voice with these properties, where the engine names the language
    /// by a Unicode language identifier: the identifier is written out in
    /// its regular form, and that is the language of the voice where it is a
    /// well-formed language tag. Where `language` is no such identifier, or
    /// its regular form no such tag, there is no voice.
    pub fn with_language_identifier(
        id: String,
        name: String,
        gender: Option<Gender>,
        language: &str,
    ) -> (voice: Option<Voice>)
        ensures
            voice is Some <==> (language_identifier_text(language@) matches Some(text)
                && language_tag_parses(text)),
            voice matches Some(v) ==> v@ == (VoiceView {
                id: id@,
                name: name@,
                gender,
                language: language_identifier_text(language@)->0,
            }),
    {
        match write_language_identifier(language) {
            Some(text) => Voice::new(id, name, gender, text),
            None => None,
        }
    }

    /// The identifier by which the engine knows the voice.
    pub fn id(&self) -> (id: String)
        ensures
            id@ == self@.id,
    {
        self.id.clone()
    }

    /// The name of the voice.
    pub fn name(&self) -> (name: String)
        ensures
            name@ == self@.name,
    {
        self.name.clone()
    }

    /// The gender of the voice, where the engine tells it.
    pub fn gender(&self) -> (gender: Option<Gender>)
        ensures
            gender == self@.gender,
    {
        self.gender
    }

    /// The language of the voice: a tag that `language_tag_parses` accepts.
    pub fn language(&self) -> (language: String)
        ensures
            language@ == self@.language,
            language_tag_parses(language@),
    {
        proof {
            use_type_invariant(self);
        }
        self.language.clone()
    }

    /// Whether the engine knows this voice by the identifier of `other`.
    pub fn has_id_of(&self, other: &Voice) -> (same: bool)
        ensures
            same == (self@.id == other@.id),
    {
        self.id == other.id
    }

    /// Whether two voices hold the same properties.
    pub fn same_as(&self, other: &Voice) -> (same: bool)
        ensures
            same == (self@ == other@),
    {
        let same_gender = match (self.gender, other.gender) {
            (None, None) => true,
            (Some(Gender::Male), Some(Gender::Male)) => true,
            (Some(Gender::Female), Some(Gender::Female)) => true,
            _ => false,
        };
        self.id == other.id && self.name == other.name && same_gender && self.language
            == other.language
    }
}

impl Clone for Voice {
    fn clone(&self) -> (copy: Voice)
        ensures
            copy == *self,
    {
        proof {
            use_type_invariant(self);
        }
        Voice {
            id: self.id.clone(),
            name: self.name.clone(),
            gender: self.gender,
            language: self.language.clone(),
        }
    }
}

} // verus!
