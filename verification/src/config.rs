//! The persisted filter configuration: which tickets the tracker is asked
//! for, and the default project key.

use vstd::prelude::*;

verus! {

/// Mathematical model of a [`Config`].
#[verifier::ext_equal]
pub ghost struct ConfigView {
    pub default_project_key: Seq<char>,
    pub filter_in_progress: bool,
    pub filter_mine: bool,
}

/// Filter settings for ticket queries: restrict to the current user's
/// tickets, restrict to in-progress tickets, and an optional project key.
pub struct Config {
    pub default_project_key: String,
    pub filter_in_progress: bool,
    pub filter_mine: bool,
}

impl ConfigView {
    /// The defaults used when no configuration could be loaded:
    /// empty project key, both filters on.
    pub open spec fn spec_default() -> ConfigView {
        ConfigView {
            default_project_key: Seq::<char>::empty(),
            filter_in_progress: true,
            filter_mine: true,
        }
    }
}

impl View for Config {
    type V = ConfigView;

    open spec fn view(&self) -> ConfigView {
        ConfigView {
            default_project_key: self.default_project_key@,
            filter_in_progress: self.filter_in_progress,
            filter_mine: self.filter_mine,
        }
    }
}

impl DeepView for Config {
    type V = ConfigView;

    open spec fn deep_view(&self) -> ConfigView {
        self.view()
    }
}

impl Clone for Config {
    fn clone(&self) -> (r: Config)
        ensures
            r@ == self@,
    {
        Config {
            default_project_key: self.default_project_key.clone(),
            filter_in_progress: self.filter_in_progress,
            filter_mine: self.filter_mine,
        }
    }
}

impl Default for Config {
    /// Hard-coded defaults, substituted whenever loading the persisted
    /// configuration fails.
    fn default() -> (r: Config)
        ensures
            r@ == ConfigView::spec_default(),
    {
        Config { default_project_key: String::new(), filter_in_progress: true, filter_mine: true }
    }
}

} // verus!
