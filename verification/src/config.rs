//! The options of one generation run. They only steer details of the
//! generated Kotlin: the component itself is fixed by its interface.

use crate::interface::ComponentInterface;
use vstd::prelude::*;
use vstd::string::*;

verus! {

/// The options a caller can set: the Kotlin package of the generated code and
/// the name of the native library it loads. Each may be left unset.
#[derive(Debug)]
pub struct Config {
    package_name: Option<String>,
    cdylib_name: Option<String>,
}

/// What a `Config` stands for.
pub struct ConfigView {
    pub package_name: Option<Seq<char>>,
    pub cdylib_name: Option<Seq<char>>,
}

/// The view of an optional text.
pub open spec fn optional_text(text: Option<String>) -> Option<Seq<char>> {
    match text {
        Some(t) => Some(t@),
        None => None,
    }
}

impl View for Config {
    type V = ConfigView;

    closed spec fn view(&self) -> ConfigView {
        ConfigView {
            package_name: optional_text(self.package_name),
            cdylib_name: optional_text(self.cdylib_name),
        }
    }
}

impl ConfigView {
    /// The package of the generated code: the value that was set, or `uniffi`.
    pub open spec fn package_name(self) -> Seq<char> {
        match self.package_name {
            Some(name) => name,
            None => "uniffi"@,
        }
    }

    /// The name of the native library: the value that was set, or `uniffi`.
    pub open spec fn cdylib_name(self) -> Seq<char> {
        match self.cdylib_name {
            Some(name) => name,
            None => "uniffi"@,
        }
    }

    /// The options that follow from a component's namespace alone.
    pub open spec fn derived(namespace: Seq<char>) -> ConfigView {
        ConfigView {
            package_name: Some("uniffi."@ + namespace),
            cdylib_name: Some("uniffi_"@ + namespace),
        }
    }

    /// These options laid over `other`: a value that is set here stays, and
    /// one that is not set is taken from `other`. Each field goes by itself.
    pub open spec fn merge_with(self, other: ConfigView) -> ConfigView {
        ConfigView {
            package_name: if self.package_name is Some {
                self.package_name
            } else {
                other.package_name
            },
            cdylib_name: if self.cdylib_name is Some {
                self.cdylib_name
            } else {
                other.cdylib_name
            },
        }
    }

    /// The options of a run: what the caller set, laid over what follows from
    /// the component's namespace.
    pub open spec fn resolve(self, namespace: Seq<char>) -> ConfigView {
        self.merge_with(ConfigView::derived(namespace))
    }
}

/// A copy of an optional text.
fn clone_optional_text(text: &Option<String>) -> (r: Option<String>)
    ensures
        optional_text(r) == optional_text(*text),
{
    match text {
        Some(t) => Some(t.clone()),
        None => None,
    }
}

impl Clone for Config {
    fn clone(&self) -> (r: Config)
        ensures
            r@ == self@,
    {
        Config {
            package_name: clone_optional_text(&self.package_name),
            cdylib_name: clone_optional_text(&self.cdylib_name),
        }
    }
}

impl Default for Config {
    /// The options with nothing set.
    fn default() -> (r: Config)
        ensures
            r@ == (ConfigView { package_name: None, cdylib_name: None }),
    {
        Config { package_name: None, cdylib_name: None }
    }
}

impl<'a> From<&'a ComponentInterface> for Config {
    /// The options that follow from a component's interface: both names are
    /// built from its namespace.
    fn from(ci: &'a ComponentInterface) -> (r: Config)
        ensures
            r@ == ConfigView::derived(ci.namespace_text()),
    {
        Config {
            package_name: Some(String::from_str("uniffi.").concat(ci.namespace())),
            cdylib_name: Some(String::from_str("uniffi_").concat(ci.namespace())),
        }
    }
}

/// What `from` returns is stated in its own contract, through the view. Two
/// values with the same view are not known to be the same value, so no value
/// is fixed here.
impl<'a> vstd::std_specs::convert::FromSpecImpl<&'a ComponentInterface> for Config {
    open spec fn obeys_from_spec() -> bool {
        false
    }

    open spec fn from_spec(ci: &'a ComponentInterface) -> Config {
        arbitrary()
    }
}

impl Config {
    pub fn new(package_name: Option<String>, cdylib_name: Option<String>) -> (r: Config)
        ensures
            r@.package_name == optional_text(package_name),
            r@.cdylib_name == optional_text(cdylib_name),
    {
        Config { package_name, cdylib_name }
    }

    /// Hands out the two options as they were set: the package first, the
    /// library's name second.
    pub fn into_parts(self) -> (r: (Option<String>, Option<String>))
        ensures
            optional_text(r.0) == self@.package_name,
            optional_text(r.1) == self@.cdylib_name,
    {
        (self.package_name, self.cdylib_name)
    }

    /// The package of the generated code.
    pub fn package_name(&self) -> (r: String)
        ensures
            r@ == self@.package_name(),
    {
        if let Some(package_name) = &self.package_name {
            package_name.clone()
        } else {
            String::from_str("uniffi")
        }
    }

    /// The name of the native library that the generated code loads.
    pub fn cdylib_name(&self) -> (r: String)
        ensures
            r@ == self@.cdylib_name(),
    {
        if let Some(cdylib_name) = &self.cdylib_name {
            cdylib_name.clone()
        } else {
            String::from_str("uniffi")
        }
    }

    /// These options laid over `other`, field by field: a value set here wins.
    pub fn merge_with(&self, other: &Config) -> (r: Config)
        ensures
            r@ == self@.merge_with(other@),
    {
        Config {
            package_name: if self.package_name.is_some() {
                clone_optional_text(&self.package_name)
            } else {
                clone_optional_text(&other.package_name)
            },
            cdylib_name: if self.cdylib_name.is_some() {
                clone_optional_text(&self.cdylib_name)
            } else {
                clone_optional_text(&other.cdylib_name)
            },
        }
    }
}

/// A value that the caller set is the one that the run uses, whatever the
/// component's namespace is; a value left unset is the one built from the
/// namespace. What is set for one field changes nothing for the other.
pub proof fn lemma_explicit_value_wins(overrides: ConfigView, namespace: Seq<char>)
    ensures
        overrides.package_name matches Some(name) ==> overrides.resolve(namespace).package_name()
            == name,
        overrides.package_name is None ==> overrides.resolve(namespace).package_name()
            == "uniffi."@ + namespace,
        overrides.cdylib_name matches Some(name) ==> overrides.resolve(namespace).cdylib_name()
            == name,
        overrides.cdylib_name is None ==> overrides.resolve(namespace).cdylib_name() == "uniffi_"@
            + namespace,
{
}

} // verus!
