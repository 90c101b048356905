use vstd::prelude::*;

verus! {

/// The host's string type, carried through opaque.
#[verifier::external_type_specification]
#[verifier::external_body]
pub struct ExNvimString(nvim_types::String);

/// The bytes that a host string holds, without its null terminator.
pub uninterp spec fn nvim_bytes(s: nvim_types::String) -> Seq<u8>;

/// The bytes of an ASCII text, one per character.
pub open spec fn ascii_bytes(s: Seq<char>) -> Seq<u8> {
    s.map_values(|c: char| c as u8)
}

/// Every character of `s` is ASCII.
pub open spec fn is_ascii_text(s: Seq<char>) -> bool {
    forall|i: int| 0 <= i < s.len() ==> (s[i] as u32) < 128
}

/// Relies on `From<&str>` for `nvim_types::String`, which copies the bytes of
/// `s` into a new host string (`String::from_bytes`).
#[verifier::external_body]
fn nvim_string(s: &str) -> (r: nvim_types::String)
    ensures
        is_ascii_text(s@) ==> nvim_bytes(r) == ascii_bytes(s@),
{
    nvim_types::String::from(s)
}

/// A mode of the editor, as the host's keymap API names them.
#[derive(Copy, Clone, Debug, PartialEq, Eq, Hash)]
pub enum Mode {
    CmdLine,
    Insert,
    InsertCmdLine,
    Langmap,
    /// Normal, visual and operator-pending together.
    NormalVisualOperator,
    Normal,
    OperatorPending,
    Select,
    Terminal,
    Visual,
    VisualSelect,
}

/// The host's tag of each mode.
pub open spec fn mode_tag(m: Mode) -> Seq<char> {
    match m {
        Mode::CmdLine => "c"@,
        Mode::Insert => "i"@,
        Mode::InsertCmdLine => "!"@,
        Mode::Langmap => "l"@,
        Mode::NormalVisualOperator => ""@,
        Mode::Normal => "n"@,
        Mode::OperatorPending => "o"@,
        Mode::Select => "s"@,
        Mode::Terminal => "t"@,
        Mode::Visual => "x"@,
        Mode::VisualSelect => "v"@,
    }
}

impl Mode {
    /// The tag that stands for this mode in the host's API.
    pub fn tag(&self) -> (r: &'static str)
        ensures
            r@ == mode_tag(*self),
    {
        match self {
            Mode::CmdLine => "c",
            Mode::Insert => "i",
            Mode::InsertCmdLine => "!",
            Mode::Langmap => "l",
            Mode::NormalVisualOperator => "",
            Mode::Normal => "n",
            Mode::OperatorPending => "o",
            Mode::Select => "s",
            Mode::Terminal => "t",
            Mode::Visual => "x",
            Mode::VisualSelect => "v",
        }
    }

    /// The mode's tag as a string of the host.
    pub fn to_nvim_string(self) -> (r: nvim_types::String)
        ensures
            nvim_bytes(r) == ascii_bytes(mode_tag(self)),
    {
        let tag = self.tag();
        proof {
            reveal_strlit("c");
            reveal_strlit("i");
            reveal_strlit("!");
            reveal_strlit("l");
            reveal_strlit("");
            reveal_strlit("n");
            reveal_strlit("o");
            reveal_strlit("s");
            reveal_strlit("t");
            reveal_strlit("x");
            reveal_strlit("v");
        }
        assert(is_ascii_text(tag@));
        nvim_string(tag)
    }

    #[inline(always)]
    pub fn is_cmd_line(&self) -> (r: bool)
        ensures
            r <==> *self is CmdLine,
    {
        matches!(self, Mode::CmdLine)
    }

    #[inline(always)]
    pub fn is_insert(&self) -> (r: bool)
        ensures
            r <==> *self is Insert,
    {
        matches!(self, Mode::Insert)
    }

    #[inline(always)]
    pub fn is_langmap(&self) -> (r: bool)
        ensures
            r <==> *self is Langmap,
    {
        matches!(self, Mode::Langmap)
    }

    #[inline(always)]
    pub fn is_nvo(&self) -> (r: bool)
        ensures
            r <==> *self is NormalVisualOperator,
    {
        matches!(self, Mode::NormalVisualOperator)
    }

    #[inline(always)]
    pub fn is_normal(&self) -> (r: bool)
        ensures
            r <==> *self is Normal,
    {
        matches!(self, Mode::Normal)
    }

    #[inline(always)]
    pub fn is_op_pending(&self) -> (r: bool)
        ensures
            r <==> *self is OperatorPending,
    {
        matches!(self, Mode::OperatorPending)
    }

    #[inline(always)]
    pub fn is_select(&self) -> (r: bool)
        ensures
            r <==> *self is Select,
    {
        matches!(self, Mode::Select)
    }

    #[inline(always)]
    pub fn is_terminal(&self) -> (r: bool)
        ensures
            r <==> *self is Terminal,
    {
        matches!(self, Mode::Terminal)
    }

    #[inline(always)]
    pub fn is_visual(&self) -> (r: bool)
        ensures
            r <==> *self is Visual,
    {
        matches!(self, Mode::Visual)
    }

    #[inline(always)]
    pub fn is_visual_select(&self) -> (r: bool)
        ensures
            r <==> *self is VisualSelect,
    {
        matches!(self, Mode::VisualSelect)
    }
}

} // verus!
