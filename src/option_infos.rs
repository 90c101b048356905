use vstd::prelude::*;

verus! {

/// How wide an option's value reaches.
#[non_exhaustive]
#[derive(Copy, Clone, Debug, PartialEq, Eq, Hash)]
pub enum OptionScope {
    Buffer,
    Global,
    Window,
}

impl OptionScope {
    #[inline]
    pub fn is_buffer(&self) -> (r: bool)
        ensures
            r <==> *self is Buffer,
    {
        matches!(self, OptionScope::Buffer)
    }

    #[inline]
    pub fn is_global(&self) -> (r: bool)
        ensures
            r <==> *self is Global,
    {
        matches!(self, OptionScope::Global)
    }

    #[inline]
    pub fn is_window(&self) -> (r: bool)
        ensures
            r <==> *self is Window,
    {
        matches!(self, OptionScope::Window)
    }

    /// The tag that the host's API uses for this scope.
    pub fn tag(&self) -> (r: &'static str)
        ensures
            r@ == scope_tag(*self),
    {
        match self {
            OptionScope::Buffer => "buf",
            OptionScope::Global => "global",
            OptionScope::Window => "win",
        }
    }
}

/// The host's tag of each scope.
pub open spec fn scope_tag(s: OptionScope) -> Seq<char> {
    match s {
        OptionScope::Buffer => "buf"@,
        OptionScope::Global => "global"@,
        OptionScope::Window => "win"@,
    }
}

/// The default value of an option: a boolean, a number or a string.
#[non_exhaustive]
#[derive(Clone, Debug, PartialEq, Eq, Hash)]
pub enum OptionDefault {
    Boolean(bool),
    Number(i64),
    String(String),
}

impl OptionDefault {
    #[inline]
    pub fn as_boolean(&self) -> (r: Option<bool>)
        ensures
            r == (match *self {
                OptionDefault::Boolean(b) => Some(b),
                _ => None,
            }),
    {
        match self {
            OptionDefault::Boolean(b) => Some(*b),
            _ => None,
        }
    }

    #[inline]
    pub fn as_number(&self) -> (r: Option<i64>)
        ensures
            r == (match *self {
                OptionDefault::Number(n) => Some(n),
                _ => None,
            }),
    {
        match self {
            OptionDefault::Number(n) => Some(*n),
            _ => None,
        }
    }

    #[inline]
    pub fn as_string(&self) -> (r: Option<&str>)
        ensures
            r is Some <==> *self is String,
            *self is String ==> r.unwrap()@ == self->String_0@,
    {
        match self {
            OptionDefault::String(s) => Some(s.as_str()),
            _ => None,
        }
    }

    #[inline]
    pub fn is_boolean(&self) -> (r: bool)
        ensures
            r <==> *self is Boolean,
    {
        matches!(self, OptionDefault::Boolean(_))
    }

    #[inline]
    pub fn is_number(&self) -> (r: bool)
        ensures
            r <==> *self is Number,
    {
        matches!(self, OptionDefault::Number(_))
    }

    #[inline]
    pub fn is_string(&self) -> (r: bool)
        ensures
            r <==> *self is String,
    {
        matches!(self, OptionDefault::String(_))
    }
}

/// What the host reports of one option. The value's type is carried by
/// `default` rather than by a field of its own.
#[derive(Clone, Debug, PartialEq, Eq, Hash)]
pub struct OptionInfos {
    pub allows_duplicates: bool,
    /// List of comma-separated values.
    pub commalist: bool,
    /// The default value for the option.
    pub default: OptionDefault,
    pub flaglist: bool,
    /// Whether a window or buffer option also has a global value.
    pub global_local: bool,
    /// Channel id where the option was set (`0` for local).
    pub last_set_chan: u32,
    /// The line number where the option was set.
    pub last_set_linenr: usize,
    /// Last set script id (if any).
    pub last_set_sid: u32,
    /// Name of the option (like `"filetype"`).
    pub name: String,
    /// Scope of the option.
    pub scope: OptionScope,
    /// Shortened name of the option (like `"ft"`).
    pub shortname: String,
    /// Whether the option was set.
    pub was_set: bool,
}

} // verus!
