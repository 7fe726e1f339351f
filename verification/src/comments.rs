use vstd::prelude::*;
use vstd::string::*;

verus! {

/// Where the comment stripper stands between two scalars.
#[derive(Clone, Copy, Debug, PartialEq, Eq, Structural)]
pub enum StripState {
    /// Copying text; `escaped` is set while an odd run of backslashes is open.
    Plain { escaped: bool },
    /// Inside a comment, up to and including its newline.
    CommentLine1,
    /// At the start of the line after a comment, skipping its indentation.
    CommentLine2,
}

impl StripState {
    /// The state after reading `c`.
    pub open spec fn next(self, c: char) -> StripState {
        match self {
            StripState::Plain { escaped } => {
                if c == '%' && !escaped {
                    StripState::CommentLine1
                } else if c == '\\' {
                    StripState::Plain { escaped: !escaped }
                } else {
                    StripState::Plain { escaped: false }
                }
            },
            StripState::CommentLine1 => {
                if c == '\n' {
                    StripState::CommentLine2
                } else {
                    StripState::CommentLine1
                }
            },
            StripState::CommentLine2 => {
                if c == ' ' || c == '\t' {
                    StripState::CommentLine2
                } else {
                    StripState::Plain { escaped: c == '\\' }
                }
            },
        }
    }

    /// Whether `c`, read in this state, is copied to the output.
    pub open spec fn keeps(self, c: char) -> bool {
        match self {
            StripState::Plain { escaped } => !(c == '%' && !escaped),
            StripState::CommentLine1 => false,
            StripState::CommentLine2 => !(c == ' ' || c == '\t'),
        }
    }

    /// The state reached from the start of a text after reading all of `s`.
    pub open spec fn after(s: Seq<char>) -> StripState
        decreases s.len(),
    {
        if s.len() == 0 {
            StripState::Plain { escaped: false }
        } else {
            Self::after(s.drop_last()).next(s.last())
        }
    }
}

/// The text `s` without its line comments: every scalar of `s` that the
/// stripper copies, in order.
pub open spec fn strip_comments(s: Seq<char>) -> Seq<char>
    decreases s.len(),
{
    if s.len() == 0 {
        Seq::empty()
    } else if StripState::after(s.drop_last()).keeps(s.last()) {
        strip_comments(s.drop_last()).push(s.last())
    } else {
        strip_comments(s.drop_last())
    }
}

/// Removes the line comments of `input_text`. A comment runs from an unescaped
/// `%` through the end of its line and takes the spaces and tabs that open the
/// next line with it.
pub fn preproc_text(input_text: String) -> (preprocessed: String)
    ensures
        preprocessed@ == strip_comments(input_text@),
{
    let mut state = StripState::Plain { escaped: false };
    let mut preprocessed = String::new();
    for c in it: input_text.as_str().chars()
        invariant
            it.seq() == input_text@,
            state == StripState::after(input_text@.take(it.index() as int)),
            preprocessed@ == strip_comments(input_text@.take(it.index() as int)),
    {
        proof {
            let k = it.index() as int;
            assert(input_text@.take(k + 1).drop_last() == input_text@.take(k));
        }
        match state {
            StripState::Plain { escaped } => {
                if c == '%' && !escaped {
                    state = StripState::CommentLine1;
                } else if c == '\\' {
                    state = StripState::Plain { escaped: !escaped };
                    preprocessed.push(c);
                } else {
                    state = StripState::Plain { escaped: false };
                    preprocessed.push(c);
                }
            },
            StripState::CommentLine1 => {
                if c == '\n' {
                    state = StripState::CommentLine2;
                }
            },
            StripState::CommentLine2 => {
                if c != ' ' && c != '\t' {
                    state = StripState::Plain { escaped: c == '\\' };
                    preprocessed.push(c);
                }
            },
        }
    }
    proof {
        assert(input_text@.take(input_text@.len() as int) == input_text@);
    }
    preprocessed
}

/// The sources stripped of their comments one by one, then joined in order.
/// A comment left open at the end of one source does not reach into the next.
pub open spec fn assembled(sources: Seq<Seq<char>>) -> Seq<char>
    decreases sources.len(),
{
    if sources.len() == 0 {
        Seq::empty()
    } else {
        assembled(sources.drop_last()) + strip_comments(sources.last())
    }
}

/// Makes one document of several sources: each is stripped of its comments,
/// and the results are joined in the order given.
pub fn assemble(sources: &Vec<String>) -> (document: String)
    ensures
        document@ == assembled(sources.deep_view()),
{
    let mut document = String::new();
    let mut i: usize = 0;
    while i < sources.len()
        invariant
            i <= sources.len(),
            document@ == assembled(sources.deep_view().take(i as int)),
        decreases sources.len() - i,
    {
        let cleaned = preproc_text(sources[i].clone());
        document.append(cleaned.as_str());
        proof {
            let all = sources.deep_view();
            assert(all.take(i + 1).drop_last() == all.take(i as int));
            assert(all.take(i + 1).last() == sources[i as int]@);
        }
        i += 1;
    }
    proof {
        let all = sources.deep_view();
        assert(all.take(all.len() as int) == all);
    }
    document
}

/// Text that holds neither `%` nor `\` has no comments: stripping leaves it
/// as it is.
pub proof fn law_text_without_markers_is_kept(s: Seq<char>)
    requires
        forall|i: int| 0 <= i < s.len() ==> s[i] != '%' && s[i] != '\\',
    ensures
        strip_comments(s) == s,
        StripState::after(s) == (StripState::Plain { escaped: false }),
    decreases s.len(),
{
    if s.len() > 0 {
        law_text_without_markers_is_kept(s.drop_last());
        assert(s.drop_last().push(s.last()) == s);
    }
}

} // verus!
