//! Composable validators for text messages.
//!
//! A validator is a small tree of predicates. Leaves test the message
//! against a literal or a regular expression; inner nodes combine their
//! children with *and*, *or* and *not*. Checking a message is a pure
//! structural recursion over the tree and cannot fail: a pattern that
//! does not compile is refused when the validator is built.

use crate::error::BinaryErrorJs;
use crate::pattern::{compile, regex_compiles, regex_is_match, search};
use crate::text::{begins_with, contains, ends_with, finishes_with, includes, starts_with};
use vstd::prelude::*;

verus! {

/// The mathematical content of a validator: a predicate on messages.
pub ghost enum Predicate {
    /// Holds of every message.
    MatchAny,
    /// Holds where the regular expression matches somewhere in the message.
    Regex(Seq<char>),
    /// Holds where the message begins with the text.
    StartsWith(Seq<char>),
    /// Holds where the message ends with the text.
    EndsWith(Seq<char>),
    /// Holds where the text stands somewhere in the message.
    Contains(Seq<char>),
    /// Holds where every child holds; of every message if there is none.
    All(Seq<Predicate>),
    /// Holds where some child holds; of no message if there is none.
    Any(Seq<Predicate>),
    /// Holds where the child does not.
    Not(Box<Predicate>),
}

impl Predicate {
    /// Whether the predicate holds of `message`.
    pub open spec fn holds(self, message: Seq<char>) -> bool
        decreases self,
    {
        match self {
            Predicate::MatchAny => true,
            Predicate::Regex(pattern) => regex_is_match(pattern, message),
            Predicate::StartsWith(pattern) => begins_with(message, pattern),
            Predicate::EndsWith(pattern) => finishes_with(message, pattern),
            Predicate::Contains(pattern) => includes(message, pattern),
            Predicate::All(children) => forall|i: int|
                0 <= i < children.len() ==> (#[trigger] children[i]).holds(message),
            Predicate::Any(children) => exists|i: int|
                0 <= i < children.len() && (#[trigger] children[i]).holds(message),
            Predicate::Not(child) => !child.holds(message),
        }
    }

    /// Whether every regular expression in the tree compiles.
    pub open spec fn compilable(self) -> bool
        decreases self,
    {
        match self {
            Predicate::Regex(pattern) => regex_compiles(pattern),
            Predicate::All(children) => forall|i: int|
                0 <= i < children.len() ==> (#[trigger] children[i]).compilable(),
            Predicate::Any(children) => forall|i: int|
                0 <= i < children.len() ==> (#[trigger] children[i]).compilable(),
            Predicate::Not(child) => child.compilable(),
            _ => true,
        }
    }
}

/// Whether every predicate of `children` holds of `message`.
pub open spec fn all_hold(children: Seq<Predicate>, message: Seq<char>) -> bool {
    forall|i: int| 0 <= i < children.len() ==> (#[trigger] children[i]).holds(message)
}

/// Whether some predicate of `children` holds of `message`.
pub open spec fn some_holds(children: Seq<Predicate>, message: Seq<char>) -> bool {
    exists|i: int| 0 <= i < children.len() && (#[trigger] children[i]).holds(message)
}

/// Whether every regular expression in `children` compiles.
pub open spec fn all_compilable(children: Seq<Predicate>) -> bool {
    forall|i: int| 0 <= i < children.len() ==> (#[trigger] children[i]).compilable()
}

/// An *and* holds exactly where all its children hold, an *or* exactly
/// where one of them does, and either compiles where all children do.
pub proof fn lemma_combinators(children: Seq<Predicate>, message: Seq<char>)
    ensures
        Predicate::All(children).holds(message) == all_hold(children, message),
        Predicate::Any(children).holds(message) == some_holds(children, message),
        Predicate::All(children).compilable() == all_compilable(children),
        Predicate::Any(children).compilable() == all_compilable(children),
{
    assert(Predicate::All(children)->All_0 == children);
    assert(Predicate::Any(children)->Any_0 == children);
}

/// The children of an *and* or an *or*, in order.
pub struct ArrayRawValidator(Vec<RawValidator>);

/// The single child of a *not*.
pub struct BoxedValidator(Box<RawValidator>);

enum RawValidator {
    MatchAny,
    Regex(String),
    StartsWith(String),
    EndsWith(String),
    Contains(String),
    All(ArrayRawValidator),
    Any(ArrayRawValidator),
    Not(BoxedValidator),
}

impl RawValidator {
    closed spec fn model(self) -> Predicate
        decreases self, 0nat,
    {
        match self {
            RawValidator::MatchAny => Predicate::MatchAny,
            RawValidator::Regex(pattern) => Predicate::Regex(pattern@),
            RawValidator::StartsWith(pattern) => Predicate::StartsWith(pattern@),
            RawValidator::EndsWith(pattern) => Predicate::EndsWith(pattern@),
            RawValidator::Contains(pattern) => Predicate::Contains(pattern@),
            RawValidator::All(children) => Predicate::All(children.models()),
            RawValidator::Any(children) => Predicate::Any(children.models()),
            RawValidator::Not(child) => Predicate::Not(Box::new(child.0.model())),
        }
    }

    fn new_all(validators: Vec<RawValidator>) -> (node: Self)
        requires
            forall|i: int| 0 <= i < validators@.len() ==> (#[trigger] validators@[i]).model().compilable(),
        ensures
            node.model() == Predicate::All(ArrayRawValidator(validators).models()),
            node.model().compilable(),
    {
        let node = RawValidator::All(ArrayRawValidator(validators));
        proof {
            lemma_combinators(ArrayRawValidator(validators).models(), Seq::empty());
        }
        node
    }

    fn new_any(validators: Vec<RawValidator>) -> (node: Self)
        requires
            forall|i: int| 0 <= i < validators@.len() ==> (#[trigger] validators@[i]).model().compilable(),
        ensures
            node.model() == Predicate::Any(ArrayRawValidator(validators).models()),
            node.model().compilable(),
    {
        let node = RawValidator::Any(ArrayRawValidator(validators));
        proof {
            lemma_combinators(ArrayRawValidator(validators).models(), Seq::empty());
        }
        node
    }

    fn new_not(validator: RawValidator) -> (node: Self)
        requires
            validator.model().compilable(),
        ensures
            node.model() == Predicate::Not(Box::new(validator.model())),
    {
        RawValidator::Not(BoxedValidator(Box::new(validator)))
    }

    fn new_contains(pattern: String) -> (node: Self)
        ensures
            node.model() == Predicate::Contains(pattern@),
    {
        RawValidator::Contains(pattern)
    }

    fn new_starts_with(pattern: String) -> (node: Self)
        ensures
            node.model() == Predicate::StartsWith(pattern@),
    {
        RawValidator::StartsWith(pattern)
    }

    fn new_ends_with(pattern: String) -> (node: Self)
        ensures
            node.model() == Predicate::EndsWith(pattern@),
    {
        RawValidator::EndsWith(pattern)
    }

    fn validate(&self, message: &str) -> (verdict: bool)
        requires
            self.model().compilable(),
        ensures
            verdict == self.model().holds(message@),
        decreases self, 0nat,
    {
        match self {
            RawValidator::MatchAny => true,
            RawValidator::Contains(pattern) => contains(message, pattern.as_str()),
            RawValidator::StartsWith(pattern) => starts_with(message, pattern.as_str()),
            RawValidator::EndsWith(pattern) => ends_with(message, pattern.as_str()),
            RawValidator::Not(child) => !child.validate(message),
            RawValidator::All(children) => {
                proof {
                    lemma_combinators(children.models(), message@);
                }
                children.validate_all(message)
            },
            RawValidator::Any(children) => {
                proof {
                    lemma_combinators(children.models(), message@);
                }
                children.validate_any(message)
            },
            RawValidator::Regex(pattern) => match search(pattern.as_str(), message) {
                Ok(found) => found,
                // Ruled out: the pattern compiled when the validator was built.
                Err(_) => false,
            },
        }
    }

    fn duplicate(&self) -> (copy: Self)
        ensures
            copy.model() == self.model(),
        decreases self, 0nat,
    {
        match self {
            RawValidator::MatchAny => RawValidator::MatchAny,
            RawValidator::Regex(pattern) => RawValidator::Regex(pattern.clone()),
            RawValidator::StartsWith(pattern) => RawValidator::StartsWith(pattern.clone()),
            RawValidator::EndsWith(pattern) => RawValidator::EndsWith(pattern.clone()),
            RawValidator::Contains(pattern) => RawValidator::Contains(pattern.clone()),
            RawValidator::All(children) => RawValidator::All(children.duplicate()),
            RawValidator::Any(children) => RawValidator::Any(children.duplicate()),
            RawValidator::Not(child) => RawValidator::Not(child.duplicate()),
        }
    }
}

impl ArrayRawValidator {
    /// The predicates of the children, in order.
    pub closed spec fn models(self) -> Seq<Predicate>
        decreases self, 1nat,
    {
        Seq::new(
            self.0@.len(),
            |i: int|
                if 0 <= i < self.0@.len() {
                    self.0@[i].model()
                } else {
                    Predicate::MatchAny
                },
        )
    }

    fn validate_all(&self, message: &str) -> (verdict: bool)
        requires
            all_compilable(self.models()),
        ensures
            verdict == all_hold(self.models(), message@),
        decreases self, 1nat,
    {
        let ghost children = self.models();
        let mut at: usize = 0;
        while at < self.0.len()
            invariant
                at <= self.0@.len(),
                children == self.models(),
                all_compilable(children),
                forall|i: int| 0 <= i < at ==> (#[trigger] children[i]).holds(message@),
            decreases self.0@.len() - at,
        {
            assert(children[at as int] == self.0@[at as int].model());
            if !self.0[at].validate(message) {
                return false;
            }
            at += 1;
        }
        true
    }

    fn validate_any(&self, message: &str) -> (verdict: bool)
        requires
            all_compilable(self.models()),
        ensures
            verdict == some_holds(self.models(), message@),
        decreases self, 1nat,
    {
        let ghost children = self.models();
        let mut at: usize = 0;
        while at < self.0.len()
            invariant
                at <= self.0@.len(),
                children == self.models(),
                all_compilable(children),
                forall|i: int| 0 <= i < at ==> !(#[trigger] children[i]).holds(message@),
            decreases self.0@.len() - at,
        {
            assert(children[at as int] == self.0@[at as int].model());
            if self.0[at].validate(message) {
                return true;
            }
            at += 1;
        }
        false
    }

    fn duplicate(&self) -> (copy: Self)
        ensures
            copy.models() == self.models(),
        decreases self, 1nat,
    {
        let mut copies: Vec<RawValidator> = Vec::new();
        let mut at: usize = 0;
        while at < self.0.len()
            invariant
                at <= self.0@.len(),
                copies@.len() == at,
                forall|i: int| 0 <= i < at ==> (#[trigger] copies@[i]).model() == self.0@[i].model(),
            decreases self.0@.len() - at,
        {
            let copy = self.0[at].duplicate();
            copies.push(copy);
            at += 1;
        }
        let copy = ArrayRawValidator(copies);
        assert(copy.models() =~= self.models());
        copy
    }
}

impl BoxedValidator {
    /// The predicate of the child.
    pub closed spec fn model(self) -> Predicate {
        self.0.model()
    }

    #[verifier::type_invariant]
    spec fn well_formed(self) -> bool {
        self.0.model().compilable()
    }

    /// Whether the child holds of `message`.
    pub fn validate(&self, message: &str) -> (verdict: bool)
        ensures
            verdict == self.model().holds(message@),
        decreases self, 1nat,
    {
        proof {
            use_type_invariant(self);
        }
        self.0.validate(message)
    }

    fn duplicate(&self) -> (copy: Self)
        ensures
            copy.model() == self.model(),
        decreases self, 1nat,
    {
        proof {
            use_type_invariant(self);
        }
        BoxedValidator(Box::new(self.0.duplicate()))
    }
}

/// A validator for text messages: a predicate that a message either
/// meets or does not.
pub struct Validator {
    inner: RawValidator,
}

impl View for Validator {
    type V = Predicate;

    closed spec fn view(&self) -> Predicate {
        self.inner.model()
    }
}

impl Validator {
    #[verifier::type_invariant]
    spec fn well_formed(self) -> bool {
        self.inner.model().compilable()
    }

    /// The validator that every message meets.
    pub fn new() -> (validator: Self)
        ensures
            validator@ == Predicate::MatchAny,
            validator@.compilable(),
    {
        Validator { inner: RawValidator::MatchAny }
    }

    /// The validator met by the messages in which the regular expression
    /// `pattern` matches somewhere. A pattern that does not compile is
    /// refused here, so that checking a message never fails.
    pub fn regex(pattern: String) -> (made: Result<Self, BinaryErrorJs>)
        ensures
            made is Ok <==> regex_compiles(pattern@),
            made matches Ok(validator) ==> validator@ == Predicate::Regex(pattern@),
            made matches Ok(validator) ==> validator@.compilable(),
            made matches Err(error) ==> error is InvalidRegexError,
    {
        let compiled = match compile(pattern.as_str()) {
            Ok(()) => Ok(()),
            Err(cause) => Err(cause.to_string()),
        };
        Self::compiled(pattern, compiled)
    }

    /// The validator for the regular expression `pattern`, given how
    /// compiling the pattern went: the validator where it compiled, and
    /// otherwise an `InvalidRegexError` with the reason.
    pub fn compiled(pattern: String, outcome: Result<(), String>) -> (made: Result<
        Self,
        BinaryErrorJs,
    >)
        requires
            outcome is Ok ==> regex_compiles(pattern@),
        ensures
            match outcome {
                Ok(_) => made matches Ok(validator) && validator@ == Predicate::Regex(pattern@)
                    && validator@.compilable(),
                Err(reason) => made matches Err(BinaryErrorJs::InvalidRegexError(text)) && text@
                    == reason@,
            },
    {
        match outcome {
            Ok(_) => Ok(Validator { inner: RawValidator::Regex(pattern) }),
            Err(reason) => Err(BinaryErrorJs::InvalidRegexError(reason)),
        }
    }

    /// The validator met by the messages that contain `pattern`.
    pub fn contains(pattern: String) -> (validator: Self)
        ensures
            validator@ == Predicate::Contains(pattern@),
            validator@.compilable(),
    {
        Validator { inner: RawValidator::new_contains(pattern) }
    }

    /// The validator met by the messages that begin with `pattern`.
    pub fn starts_with(pattern: String) -> (validator: Self)
        ensures
            validator@ == Predicate::StartsWith(pattern@),
            validator@.compilable(),
    {
        Validator { inner: RawValidator::new_starts_with(pattern) }
    }

    /// The validator met by the messages that end with `pattern`.
    pub fn ends_with(pattern: String) -> (validator: Self)
        ensures
            validator@ == Predicate::EndsWith(pattern@),
            validator@.compilable(),
    {
        Validator { inner: RawValidator::new_ends_with(pattern) }
    }

    /// The validator met by exactly the messages that `validator` rejects.
    pub fn ne(validator: &Validator) -> (negated: Self)
        ensures
            negated@ == Predicate::Not(Box::new(validator@)),
            negated@.compilable(),
    {
        proof {
            use_type_invariant(validator);
        }
        Validator { inner: RawValidator::new_not(validator.inner.duplicate()) }
    }

    /// The validator met by the messages that meet every one of
    /// `validators`; by every message if there is none.
    pub fn all(validators: Vec<&Validator>) -> (combined: Self)
        ensures
            combined@ == Predicate::All(Self::views(validators@)),
            combined@.compilable(),
    {
        let children = Self::duplicates(&validators);
        proof {
            assert(ArrayRawValidator(children).models() =~= Self::views(validators@));
        }
        Validator { inner: RawValidator::new_all(children) }
    }

    /// The validator met by the messages that meet at least one of
    /// `validators`; by no message if there is none.
    pub fn any(validators: Vec<&Validator>) -> (combined: Self)
        ensures
            combined@ == Predicate::Any(Self::views(validators@)),
            combined@.compilable(),
    {
        let children = Self::duplicates(&validators);
        proof {
            assert(ArrayRawValidator(children).models() =~= Self::views(validators@));
        }
        Validator { inner: RawValidator::new_any(children) }
    }

    /// The predicates of `validators`, in order.
    pub open spec fn views(validators: Seq<&Validator>) -> Seq<Predicate> {
        Seq::new(validators.len(), |i: int| validators[i]@)
    }

    fn duplicates(validators: &Vec<&Validator>) -> (copies: Vec<RawValidator>)
        ensures
            copies@.len() == validators@.len(),
            forall|i: int|
                0 <= i < copies@.len() ==> (#[trigger] copies@[i]).model() == validators@[i]@,
            forall|i: int| 0 <= i < copies@.len() ==> (#[trigger] copies@[i]).model().compilable(),
    {
        let mut copies: Vec<RawValidator> = Vec::new();
        let mut at: usize = 0;
        while at < validators.len()
            invariant
                at <= validators@.len(),
                copies@.len() == at,
                forall|i: int| 0 <= i < at ==> (#[trigger] copies@[i]).model() == validators@[i]@,
                forall|i: int| 0 <= i < at ==> (#[trigger] copies@[i]).model().compilable(),
            decreases validators@.len() - at,
        {
            let validator: &Validator = validators[at];
            proof {
                use_type_invariant(validator);
            }
            copies.push(validator.inner.duplicate());
            at += 1;
        }
        copies
    }

    /// Whether `msg` meets the validator.
    pub fn check(&self, msg: String) -> (verdict: bool)
        ensures
            verdict == self@.holds(msg@),
    {
        self.validate(msg.as_str())
    }

    /// Whether `message` meets the validator.
    pub fn validate(&self, message: &str) -> (verdict: bool)
        ensures
            verdict == self@.holds(message@),
    {
        proof {
            use_type_invariant(self);
        }
        self.inner.validate(message)
    }

    /// A boxed copy of the validator, to hand to a consumer that keeps it.
    pub fn to_val(&self) -> (boxed: BoxedValidator)
        ensures
            boxed.model() == self@,
    {
        proof {
            use_type_invariant(self);
        }
        BoxedValidator(Box::new(self.inner.duplicate()))
    }
}

impl Clone for ArrayRawValidator {
    fn clone(&self) -> (copy: Self)
        ensures
            copy.models() == self.models(),
    {
        self.duplicate()
    }
}

impl Clone for BoxedValidator {
    fn clone(&self) -> (copy: Self)
        ensures
            copy.model() == self.model(),
    {
        self.duplicate()
    }
}

impl Clone for Validator {
    fn clone(&self) -> (copy: Self)
        ensures
            copy@ == self@,
    {
        proof {
            use_type_invariant(self);
        }
        Validator { inner: self.inner.duplicate() }
    }
}

impl Default for Validator {
    fn default() -> (validator: Self)
        ensures
            validator@ == Predicate::MatchAny,
    {
        Validator::new()
    }
}

/// Negation: a *not* holds of exactly the messages its child rejects.
pub proof fn lemma_not_negates(child: Predicate, message: Seq<char>)
    ensures
        Predicate::Not(Box::new(child)).holds(message) == !child.holds(message),
{
}

/// Identity elements: an *and* without children holds of every message,
/// an *or* without children of none.
pub proof fn lemma_empty_combinators(message: Seq<char>)
    ensures
        Predicate::All(Seq::empty()).holds(message),
        !Predicate::Any(Seq::empty()).holds(message),
{
    lemma_combinators(Seq::empty(), message);
}

/// With two children an *or* is the disjunction and an *and* the
/// conjunction of what the children say.
pub proof fn lemma_pair_combinators(first: Predicate, second: Predicate, message: Seq<char>)
    ensures
        Predicate::Any(seq![first, second]).holds(message) == (first.holds(message)
            || second.holds(message)),
        Predicate::All(seq![first, second]).holds(message) == (first.holds(message)
            && second.holds(message)),
{
    let children = seq![first, second];
    lemma_combinators(children, message);
    assert(children[0] == first);
    assert(children[1] == second);
}

} // verus!
