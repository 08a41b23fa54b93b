//! The three configuration values, each as a small state of its own.
//!
//! A value is modelled by its view: the text of a base URL or of a
//! preference name, and for the token either its text or nothing. Every
//! operation is a transition on that view, given below as a `spec`
//! function, and the lemmas at the end say what a read sees after a write.
//!
//! The host shares each value between its threads behind a lock and calls
//! these operations on the value under the guard; see [`crate::lock`].

use vstd::prelude::*;
use crate::defaults::{
    default_base_url, default_preference_name, default_token, lemma_default_lengths,
    DEFAULT_BASE_URL, DEFAULT_PREFERENCE_NAME, DEFAULT_TOKEN,
};

verus! {

/// The base URL after a reset: the default, whatever it was before.
pub open spec fn base_url_after_clear(before: Seq<char>) -> Seq<char> {
    default_base_url()
}

/// The token before anything was written: present, with the default text.
pub open spec fn initial_token() -> Option<Seq<char>> {
    Some(default_token())
}

/// The token after `value` was stored: present with exactly that text,
/// whatever it was before.
pub open spec fn token_after_set(before: Option<Seq<char>>, value: Seq<char>) -> Option<
    Seq<char>,
> {
    Some(value)
}

/// The token after it was cleared: absent, whatever it was before.
pub open spec fn token_after_clear(before: Option<Seq<char>>) -> Option<Seq<char>> {
    None
}

/// What a reader sees of a token: its text, or the empty string where the
/// token is absent.
pub open spec fn token_text(token: Option<Seq<char>>) -> Seq<char> {
    match token {
        Some(text) => text,
        None => Seq::<char>::empty(),
    }
}

/// Root URL of the service the host talks to. It can be read and reset,
/// not set, so every value of this type holds the default.
pub struct BaseUrl {
    value: String,
}

impl View for BaseUrl {
    type V = Seq<char>;

    closed spec fn view(&self) -> Seq<char> {
        self.value@
    }
}

impl BaseUrl {
    /// No operation stores anything but the default, so every value of
    /// this type holds it.
    #[verifier::type_invariant]
    closed spec fn holds_default(self) -> bool {
        self.value@ == default_base_url()
    }

    /// The default base URL.
    pub fn new() -> (url: Self)
        ensures
            url@ == default_base_url(),
    {
        BaseUrl { value: DEFAULT_BASE_URL.to_string() }
    }

    /// A copy of the current URL, which is the default for every value of
    /// this type and so never empty.
    pub fn get(&self) -> (text: String)
        ensures
            text@ == self@,
            text@ == default_base_url(),
            text@.len() > 0,
    {
        proof {
            use_type_invariant(self);
            lemma_default_lengths();
        }
        self.value.clone()
    }

    /// Stores the default, whatever the URL was.
    pub fn clear(&mut self)
        ensures
            final(self)@ == base_url_after_clear(old(self)@),
    {
        self.value = DEFAULT_BASE_URL.to_string();
    }
}

/// Auth token: present with a text, or absent.
pub struct Token {
    value: Option<String>,
}

impl View for Token {
    type V = Option<Seq<char>>;

    closed spec fn view(&self) -> Option<Seq<char>> {
        match self.value {
            Some(text) => Some(text@),
            None => None,
        }
    }
}

impl Token {
    /// The default token, present.
    pub fn new() -> (token: Self)
        ensures
            token@ == initial_token(),
    {
        Token { value: Some(DEFAULT_TOKEN.to_string()) }
    }

    /// Stores `value` as it is, in place of a present or an absent token
    /// alike. No text is refused, the empty one included.
    pub fn set(&mut self, value: String)
        ensures
            final(self)@ == token_after_set(old(self)@, value@),
    {
        self.value = Some(value);
    }

    /// A copy of the token's text, empty where the token is absent.
    pub fn get(&self) -> (text: String)
        ensures
            text@ == token_text(self@),
    {
        match &self.value {
            Some(text) => text.clone(),
            None => String::new(),
        }
    }

    /// Makes the token absent.
    pub fn clear(&mut self)
        ensures
            final(self)@ == token_after_clear(old(self)@),
    {
        self.value = None;
    }
}

/// Name of the host's preference store. No operation changes it, so every
/// value of this type holds the default.
pub struct PreferenceName {
    value: String,
}

impl View for PreferenceName {
    type V = Seq<char>;

    closed spec fn view(&self) -> Seq<char> {
        self.value@
    }
}

impl PreferenceName {
    #[verifier::type_invariant]
    closed spec fn holds_default(self) -> bool {
        self.value@ == default_preference_name()
    }

    /// The default preference-store name.
    pub fn new() -> (name: Self)
        ensures
            name@ == default_preference_name(),
    {
        PreferenceName { value: DEFAULT_PREFERENCE_NAME.to_string() }
    }

    /// A copy of the name, which is the default for every value of this
    /// type.
    pub fn get(&self) -> (text: String)
        ensures
            text@ == self@,
            text@ == default_preference_name(),
    {
        proof {
            use_type_invariant(self);
        }
        self.value.clone()
    }
}

/// A token that was just set reads back as the text that was stored:
/// nothing is cut, trimmed or otherwise changed, and what the token held
/// before does not matter.
pub proof fn lemma_token_set_then_get(before: Option<Seq<char>>, value: Seq<char>)
    ensures
        token_text(token_after_set(before, value)) == value,
{
}

/// A token that was just cleared reads back as the empty string, whatever
/// it held before.
pub proof fn lemma_token_clear_then_get(before: Option<Seq<char>>)
    ensures
        token_text(token_after_clear(before)) == Seq::<char>::empty(),
        token_text(token_after_clear(before)).len() == 0,
{
}

/// A base URL that was just reset reads back as the default, whatever it
/// held before.
pub proof fn lemma_base_url_clear_then_get(before: Seq<char>)
    ensures
        base_url_after_clear(before) == default_base_url(),
        base_url_after_clear(before).len() > 0,
{
    lemma_default_lengths();
}

/// A token that nobody has written yet reads back as the default token.
pub proof fn lemma_token_first_read()
    ensures
        token_text(initial_token()) == default_token(),
{
}

} // verus!
