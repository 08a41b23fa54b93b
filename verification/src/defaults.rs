//! The compiled-in defaults of the three configuration values.

use vstd::prelude::*;

verus! {

/// Base URL in force until the first reset, and after every reset.
pub const DEFAULT_BASE_URL: &'static str = "https://reqres.in";

/// Token in force until the host sets or clears it.
pub const DEFAULT_TOKEN: &'static str = "Bearer 12312313123";

/// Name of the host's preference store.
pub const DEFAULT_PREFERENCE_NAME: &'static str = "dev.syafii.rustlab.pref";

/// The default base URL as a sequence of characters.
pub open spec fn default_base_url() -> Seq<char> {
    DEFAULT_BASE_URL@
}

/// The default token as a sequence of characters.
pub open spec fn default_token() -> Seq<char> {
    DEFAULT_TOKEN@
}

/// The default preference-store name as a sequence of characters.
pub open spec fn default_preference_name() -> Seq<char> {
    DEFAULT_PREFERENCE_NAME@
}

/// The length of each default; none of them is the empty string.
pub proof fn lemma_default_lengths()
    ensures
        default_base_url().len() == 17,
        default_token().len() == 18,
        default_preference_name().len() == 23,
{
    reveal_strlit("https://reqres.in");
    reveal_strlit("Bearer 12312313123");
    reveal_strlit("dev.syafii.rustlab.pref");
}

} // verus!
