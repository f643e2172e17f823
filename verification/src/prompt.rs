//! Dialogues with pinentry, and the three attempts that each of them allows.
use vstd::prelude::*;
use vstd::string::StringExecFns;
use crate::text;

verus! {

/// One dialogue to be shown.
#[derive(Debug)]
pub struct Prompt {
    pub title: String,
    pub description: String,
    /// What was wrong with the last answer.
    pub error: Option<String>,
    /// Whether the dialogue grabs the keyboard.
    pub grab: bool,
}

/// The contents of a [`Prompt`].
pub struct PromptView {
    pub title: Seq<char>,
    pub description: Seq<char>,
    pub error: Option<Seq<char>>,
    pub grab: bool,
}

impl View for Prompt {
    type V = PromptView;

    open spec fn view(&self) -> PromptView {
        PromptView {
            title: self.title@,
            description: self.description@,
            error: self.error.deep_view(),
            grab: self.grab,
        }
    }
}

/// The answer to a dialogue.
#[derive(Debug)]
pub enum Pin<P, E> {
    Entered(P),
    /// No dialogue was shown: the configuration could not be read.
    Unconfigured(E),
    Failed(E),
}

/// How often an answer may be given before the request fails.
pub const MAX_ATTEMPTS: u8 = 3;

/// The number of the current attempt, with the reason why the last one was
/// turned down.
#[derive(Debug)]
pub struct Attempts {
    number: u8,
    message: Option<String>,
}

/// The contents of [`Attempts`].
pub struct AttemptsView {
    pub number: int,
    pub message: Option<Seq<char>>,
}

impl View for Attempts {
    type V = AttemptsView;

    closed spec fn view(&self) -> AttemptsView {
        AttemptsView { number: self.number as int, message: self.message.deep_view() }
    }
}

impl AttemptsView {
    /// Attempts are counted from one to [`MAX_ATTEMPTS`], and each but the
    /// first comes with a message.
    pub open spec fn well_formed(self) -> bool {
        &&& 1 <= self.number <= MAX_ATTEMPTS
        &&& (self.message is Some <==> self.number > 1)
    }

    /// The first attempt.
    pub open spec fn first() -> Self {
        AttemptsView { number: 1, message: None }
    }

    /// The attempt after this one was turned down, if there is one left.
    pub open spec fn turned_down(self, message: Seq<char>) -> Option<Self> {
        if self.number < MAX_ATTEMPTS {
            Some(AttemptsView { number: self.number + 1, message: Some(message) })
        } else {
            None
        }
    }

    /// What the dialogue of this attempt shows as an error.
    pub open spec fn error(self) -> Option<Seq<char>> {
        match self.message {
            Some(message) => Some(
                message + " (attempt "@ + text::decimal(self.number) + "/3)"@,
            ),
            None => None,
        }
    }

    /// The attempt after each of `messages` turned one down, from the first on.
    pub open spec fn after(messages: Seq<Seq<char>>) -> Option<Self>
        decreases messages.len(),
    {
        if messages.len() == 0 {
            Some(Self::first())
        } else {
            match Self::after(messages.drop_last()) {
                Some(attempts) => attempts.turned_down(messages.last()),
                None => None,
            }
        }
    }
}

impl Attempts {
    #[verifier::type_invariant]
    closed spec fn counted(self) -> bool {
        self@.well_formed()
    }

    /// Starts with the first attempt.
    pub fn first() -> (r: Self)
        ensures
            r@ == AttemptsView::first(),
    {
        Attempts { number: 1, message: None }
    }

    /// What the dialogue of this attempt shows as an error.
    pub fn error(&self) -> (r: Option<String>)
        ensures
            self@.well_formed(),
            r.deep_view() == self@.error(),
    {
        proof {
            use_type_invariant(self);
        }
        match &self.message {
            None => None,
            Some(message) => {
                let mut error = text::concat(message.as_str(), " (attempt ");
                let number = text::decimal_of(self.number as i32);
                error.append(number.as_str());
                error.append("/3)");
                Some(error)
            },
        }
    }

    /// The dialogue of this attempt.
    pub fn prompt(&self, title: &str, description: &str, grab: bool) -> (r: Prompt)
        ensures
            self@.well_formed(),
            r@ == (PromptView {
                title: title@,
                description: description@,
                error: self@.error(),
                grab,
            }),
    {
        Prompt {
            title: title.to_owned(),
            description: description.to_owned(),
            error: self.error(),
            grab,
        }
    }

    /// Moves on after this attempt was turned down. The last attempt hands the
    /// message back.
    pub fn turned_down(self, message: String) -> (r: Result<Attempts, String>)
        ensures
            self@.well_formed(),
            match self@.turned_down(message@) {
                Some(next) => r matches Ok(attempts) && attempts@ == next,
                None => r == Err::<Attempts, String>(message),
            },
    {
        proof {
            use_type_invariant(&self);
        }
        if self.number < MAX_ATTEMPTS {
            Ok(Attempts { number: self.number + 1, message: Some(message) })
        } else {
            Err(message)
        }
    }
}

/// After `n` answers were turned down the next attempt is number `n + 1` and
/// shows the last message; after three there is no further attempt.
pub proof fn law_three_attempts(messages: Seq<Seq<char>>)
    ensures
        AttemptsView::after(messages) is Some <==> messages.len() < 3,
        AttemptsView::after(messages) matches Some(attempts) ==> {
            &&& attempts.well_formed()
            &&& attempts.number == messages.len() + 1
            &&& messages.len() > 0 ==> attempts.message == Some(messages.last())
        },
    decreases messages.len(),
{
    if messages.len() > 0 {
        law_three_attempts(messages.drop_last());
    }
}

} // verus!
