//! The visibility and inlining with which an operation is generated.

use crate::directive::optional_text;
use crate::error::Reason;
use crate::rules::InlineMode;
use crate::rules::Rules;
use crate::text::same_text;
use crate::text::starts_with;
use crate::text::strip_prefix;
use crate::text::strip_suffix;
use crate::text::without_prefix;
use crate::text::without_suffix;
use vstd::prelude::*;

verus! {

/// The visibility of a generated operation.
#[derive(Clone, Debug, PartialEq, Eq)]
pub enum VisibilityToken {
    /// No token: private.
    Private,
    /// `pub`.
    Public,
    /// `pub(crate)`.
    Crate,
    /// `pub(self)`.
    Module,
    /// `pub(super)`.
    Parent,
    /// `pub(in path)`, with the path as it was written.
    Path(String),
}

pub enum VisibilityTokenView {
    Private,
    Public,
    Crate,
    Module,
    Parent,
    Path(Seq<char>),
}

impl View for VisibilityToken {
    type V = VisibilityTokenView;

    open spec fn view(&self) -> VisibilityTokenView {
        match self {
            VisibilityToken::Private => VisibilityTokenView::Private,
            VisibilityToken::Public => VisibilityTokenView::Public,
            VisibilityToken::Crate => VisibilityTokenView::Crate,
            VisibilityToken::Module => VisibilityTokenView::Module,
            VisibilityToken::Parent => VisibilityTokenView::Parent,
            VisibilityToken::Path(path) => VisibilityTokenView::Path(path@),
        }
    }
}

/// Whether a spelled-out visibility is scoped to a path.
pub open spec fn is_scoped(vis: Seq<char>) -> bool {
    "pub(in "@.is_prefix_of(vis)
}

/// The path of a visibility that is scoped to one: what stands behind
/// `pub(in `, without the closing parenthesis where there is one.
pub open spec fn scoped_path(vis: Seq<char>) -> Seq<char> {
    without_suffix(without_prefix(vis, "pub(in "@), ")"@)
}

/// The token of a spelled-out visibility. No visibility at all is public,
/// the empty one is private. A visibility scoped to a path is refused where
/// `path_ok` says that its path is none. Any other text is public.
pub open spec fn visibility_token_of(vis: Option<Seq<char>>, path_ok: bool) -> Result<
    VisibilityTokenView,
    Reason,
> {
    match vis {
        None => Ok(VisibilityTokenView::Public),
        Some(v) => if v.len() == 0 {
            Ok(VisibilityTokenView::Private)
        } else if v == "pub"@ {
            Ok(VisibilityTokenView::Public)
        } else if v == "pub(crate)"@ {
            Ok(VisibilityTokenView::Crate)
        } else if v == "pub(self)"@ {
            Ok(VisibilityTokenView::Module)
        } else if v == "pub(super)"@ {
            Ok(VisibilityTokenView::Parent)
        } else if is_scoped(v) {
            if path_ok {
                Ok(VisibilityTokenView::Path(scoped_path(v)))
            } else {
                Err(Reason::VisibilityPath)
            }
        } else {
            Ok(VisibilityTokenView::Public)
        },
    }
}

/// The inlining of a rule: none where the rule record has none.
pub open spec fn inline_token_of(inline: Option<InlineMode>) -> InlineMode {
    match inline {
        Some(mode) => mode,
        None => InlineMode::Absent,
    }
}

/// The view of a token, or the reason that there is none.
pub open spec fn token_result_view(result: Result<VisibilityToken, Reason>) -> Result<
    VisibilityTokenView,
    Reason,
> {
    match result {
        Ok(token) => Ok(token@),
        Err(reason) => Err(reason),
    }
}

/// Asks `syn::parse_str` whether a text parses as a `syn::Path` with
/// nothing left over. Nothing is claimed of the answer: the lexer behind
/// the call is the compiler's inside a procedural macro and that of `proc_macro2`
/// elsewhere.
#[verifier::external_body]
fn path_parses(text: &str) -> (ok: bool) {
    syn::parse_str::<syn::Path>(text).is_ok()
}

impl VisibilityToken {
    /// A copy of the token.
    pub fn copy(&self) -> (token: VisibilityToken)
        ensures
            token@ == self@,
    {
        match self {
            VisibilityToken::Private => VisibilityToken::Private,
            VisibilityToken::Public => VisibilityToken::Public,
            VisibilityToken::Crate => VisibilityToken::Crate,
            VisibilityToken::Module => VisibilityToken::Module,
            VisibilityToken::Parent => VisibilityToken::Parent,
            VisibilityToken::Path(path) => VisibilityToken::Path(path.clone()),
        }
    }
}

impl Rules {
    /// The token of a spelled-out visibility, given whether the path of a
    /// scoped one is a path.
    pub fn visibility_token_from(vis: &Option<String>, path_ok: bool) -> (token: Result<
        VisibilityToken,
        Reason,
    >)
        ensures
            token_result_view(token) == visibility_token_of(optional_text(*vis), path_ok),
    {
        match vis {
            None => Ok(VisibilityToken::Public),
            Some(v) => {
                let v = v.as_str();
                if v.is_empty() {
                    Ok(VisibilityToken::Private)
                } else if same_text(v, "pub") {
                    Ok(VisibilityToken::Public)
                } else if same_text(v, "pub(crate)") {
                    Ok(VisibilityToken::Crate)
                } else if same_text(v, "pub(self)") {
                    Ok(VisibilityToken::Module)
                } else if same_text(v, "pub(super)") {
                    Ok(VisibilityToken::Parent)
                } else if starts_with(v, "pub(in ") {
                    if path_ok {
                        let path = strip_suffix(strip_prefix(v, "pub(in "), ")");
                        Ok(VisibilityToken::Path(String::from_str(path)))
                    } else {
                        Err(Reason::VisibilityPath)
                    }
                } else {
                    Ok(VisibilityToken::Public)
                }
            },
        }
    }

    /// The token of a spelled-out visibility. The path of a scoped one is
    /// handed to the parser of paths, and the visibility is refused where
    /// the parser refuses the path.
    fn visibility_token_impl(vis_option: &Option<String>) -> (token: Result<
        VisibilityToken,
        Reason,
    >)
        ensures
            token_result_view(token) == visibility_token_of(optional_text(*vis_option), true)
                || token_result_view(token) == visibility_token_of(
                optional_text(*vis_option),
                false,
            ),
    {
        let path_ok = match vis_option {
            Some(v) => {
                if starts_with(v.as_str(), "pub(in ") {
                    path_parses(strip_suffix(strip_prefix(v.as_str(), "pub(in "), ")"))
                } else {
                    true
                }
            },
            None => true,
        };
        Rules::visibility_token_from(vis_option, path_ok)
    }

    /// The visibility with which the getter is generated.
    pub fn getter_visibility_token(&self) -> (token: Result<VisibilityToken, Reason>)
        ensures
            token_result_view(token) == visibility_token_of(self@.getter_visibility, true)
                || token_result_view(token) == visibility_token_of(
                self@.getter_visibility,
                false,
            ),
    {
        Rules::visibility_token_impl(&self.getter_visibility)
    }

    /// The visibility with which the setter is generated.
    pub fn setter_visibility_token(&self) -> (token: Result<VisibilityToken, Reason>)
        ensures
            token_result_view(token) == visibility_token_of(self@.setter_visibility, true)
                || token_result_view(token) == visibility_token_of(
                self@.setter_visibility,
                false,
            ),
    {
        Rules::visibility_token_impl(&self.setter_visibility)
    }

    fn inline_token_impl(inline_option: &Option<InlineMode>) -> (mode: InlineMode)
        ensures
            mode == inline_token_of(*inline_option),
    {
        match inline_option {
            Some(mode) => *mode,
            None => InlineMode::Absent,
        }
    }

    /// The inlining with which the getter is generated.
    pub fn getter_inline_token(&self) -> (mode: InlineMode)
        ensures
            mode == inline_token_of(self@.getter_inline),
    {
        Rules::inline_token_impl(&self.getter_inline)
    }

    /// The inlining with which the setter is generated.
    pub fn setter_inline_token(&self) -> (mode: InlineMode)
        ensures
            mode == inline_token_of(self@.setter_inline),
    {
        Rules::inline_token_impl(&self.setter_inline)
    }
}

} // verus!
