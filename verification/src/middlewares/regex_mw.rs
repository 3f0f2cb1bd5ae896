//! The regex middleware: rewrites the text of each item with a list of
//! regular-expression rules, applied one after the other.

use vstd::prelude::*;
use crate::config::Config;
use crate::content::Content;
use super::TaryMiddleware;

verus! {

/// What the `regex` crate makes of `text` when the first match of `pattern`
/// is replaced by `replacement` (with `$name` and `$1` expanded); `None` when
/// `pattern` is not a valid regular expression.
pub uninterp spec fn regex_replace_first(pattern: Seq<char>, text: Seq<char>, replacement: Seq<char>) -> Option<Seq<char>>;

/// What the `regex` crate makes of `text` when every non-overlapping match of
/// `pattern` is replaced by `replacement` (with `$name` and `$1` expanded);
/// `None` when `pattern` is not a valid regular expression.
pub uninterp spec fn regex_replace_every(pattern: Seq<char>, text: Seq<char>, replacement: Seq<char>) -> Option<Seq<char>>;

/// Replaces the first match: wraps `regex::Regex::new` and
/// `regex::Regex::replace`. Claims that the result is `regex_replace_first`
/// of the arguments.
#[verifier::external_body]
fn replace_first(pattern: &str, text: &str, replacement: &str) -> (r: Option<String>)
    ensures
        r.deep_view() == regex_replace_first(pattern@, text@, replacement@),
{
    match regex::Regex::new(pattern) {
        Ok(re) => Some(re.replace(text, replacement).into_owned()),
        Err(_) => None,
    }
}

/// Replaces every match: wraps `regex::Regex::new` and
/// `regex::Regex::replace_all`. Claims that the result is
/// `regex_replace_every` of the arguments.
#[verifier::external_body]
fn replace_every(pattern: &str, text: &str, replacement: &str) -> (r: Option<String>)
    ensures
        r.deep_view() == regex_replace_every(pattern@, text@, replacement@),
{
    match regex::Regex::new(pattern) {
        Ok(re) => Some(re.replace_all(text, replacement).into_owned()),
        Err(_) => None,
    }
}

/// One rewriting rule.
pub struct RegexRule {
    pub pattern: String,
    pub replacement: String,
    /// Replace every match, not only the first.
    pub global: bool,
}

/// The text after one rule: rewritten, or unchanged where the pattern is not
/// a valid regular expression.
pub open spec fn rule_result(text: Seq<char>, rule: RegexRule) -> Seq<char> {
    let out = if rule.global {
        regex_replace_every(rule.pattern@, text, rule.replacement@)
    } else {
        regex_replace_first(rule.pattern@, text, rule.replacement@)
    };
    match out {
        Some(t) => t,
        None => text,
    }
}

/// The text after the rules, applied in order.
pub open spec fn rules_result(text: Seq<char>, rules: Seq<RegexRule>) -> Seq<char>
    decreases rules.len(),
{
    if rules.len() == 0 {
        text
    } else {
        rule_result(rules_result(text, rules.drop_last()), rules.last())
    }
}

/// Rules apply one after the other: running a list of rules followed by
/// another is running the first list, then the second on its result.
pub proof fn lemma_rules_compose(text: Seq<char>, first: Seq<RegexRule>, then: Seq<RegexRule>)
    ensures
        rules_result(text, first + then) == rules_result(rules_result(text, first), then),
    decreases then.len(),
{
    if then.len() == 0 {
        assert(first + then =~= first);
    } else {
        assert((first + then).drop_last() =~= first + then.drop_last());
        assert((first + then).last() == then.last());
        lemma_rules_compose(text, first, then.drop_last());
    }
}

/// A global rule replaces every match, as the `regex` crate's `replace_all`
/// does; any other rule replaces only the first match, as `replace` does. A
/// rule whose pattern does not compile leaves the text as it is. A single
/// rule on its own does just that.
pub proof fn law_rule(text: Seq<char>, rule: RegexRule)
    ensures
        rule.global ==> match regex_replace_every(rule.pattern@, text, rule.replacement@) {
            Some(t) => rule_result(text, rule) == t,
            None => rule_result(text, rule) == text,
        },
        !rule.global ==> match regex_replace_first(rule.pattern@, text, rule.replacement@) {
            Some(t) => rule_result(text, rule) == t,
            None => rule_result(text, rule) == text,
        },
        rules_result(text, seq![rule]) == rule_result(text, rule),
{
    assert(seq![rule].drop_last() =~= Seq::<RegexRule>::empty());
    assert(rules_result(text, seq![rule].drop_last()) == text);
}

/// No rules leave the text as it is.
pub proof fn lemma_no_rules(text: Seq<char>)
    ensures
        rules_result(text, Seq::<RegexRule>::empty()) == text,
{
}

/// The regex middleware.
pub struct RegexMiddleware {
    /// Its position in the pipeline.
    pub order: u32,
    pub rules: Vec<RegexRule>,
}

impl RegexMiddleware {
    /// The middleware set up from the configuration: present when the regex
    /// section is present and enabled, with its order and its rules in the
    /// same order (a rule without `global` replaces the first match only).
    pub open spec fn spec_init(cfg: Config, r: Option<RegexMiddleware>) -> bool {
        match cfg.middlewares.regex {
            Some(c) => if c.enabled {
                r matches Some(m) && m.order == c.order && m.rules@.len() == c.regexes@.len()
                    && forall|i: int|
                    0 <= i < m.rules@.len() ==> {
                        &&& #[trigger] m.rules@[i].pattern@ == c.regexes@[i].0@
                        &&& m.rules@[i].replacement@ == c.regexes@[i].1@
                        &&& m.rules@[i].global == (c.regexes@[i].2 == Some(true))
                    }
            } else {
                r is None
            },
            None => r is None,
        }
    }

    /// A configured rule without a `global` flag, or with it false, replaces
    /// only the first match; one with it true replaces every match. The
    /// rules keep the configured patterns, replacements and order.
    pub proof fn law_init(cfg: Config, m: RegexMiddleware, i: int)
        requires
            Self::spec_init(cfg, Some(m)),
            0 <= i < m.rules@.len(),
        ensures
            cfg.middlewares.regex matches Some(c) && c.enabled && m.order == c.order && {
                &&& m.rules@.len() == c.regexes@.len()
                &&& m.rules@[i].pattern@ == c.regexes@[i].0@
                &&& m.rules@[i].replacement@ == c.regexes@[i].1@
                &&& (c.regexes@[i].2 is None ==> !m.rules@[i].global)
                &&& (c.regexes@[i].2 == Some(false) ==> !m.rules@[i].global)
                &&& (c.regexes@[i].2 == Some(true) ==> m.rules@[i].global)
            },
    {
        let c = cfg.middlewares.regex.unwrap();
        assert(m.rules@[i].pattern@ == c.regexes@[i].0@);
    }

    /// A missing or disabled regex section sets up no middleware.
    pub proof fn law_init_absent(cfg: Config, r: Option<RegexMiddleware>)
        requires
            Self::spec_init(cfg, r),
            !(cfg.middlewares.regex matches Some(c) && c.enabled),
        ensures
            r is None,
    {
    }

    /// The text of an item after this middleware.
    pub open spec fn rewrite(&self, text: Seq<char>) -> Seq<char> {
        rules_result(text, self.rules@)
    }

    /// Applies the rules to `text`, in order.
    pub fn apply(&self, text: String) -> (r: String)
        ensures
            r@ == self.rewrite(text@),
    {
        let mut out = text;
        let mut i: usize = 0;
        while i < self.rules.len()
            invariant
                i <= self.rules@.len(),
                out@ == rules_result(text@, self.rules@.take(i as int)),
            decreases self.rules@.len() - i,
        {
            let rule = &self.rules[i];
            let next = if rule.global {
                replace_every(rule.pattern.as_str(), out.as_str(), rule.replacement.as_str())
            } else {
                replace_first(rule.pattern.as_str(), out.as_str(), rule.replacement.as_str())
            };
            match next {
                Some(t) => {
                    out = t;
                },
                None => {},
            }
            proof {
                assert(self.rules@.take(i + 1).drop_last() =~= self.rules@.take(i as int));
            }
            i = i + 1;
        }
        proof {
            assert(self.rules@.take(self.rules@.len() as int) =~= self.rules@);
        }
        out
    }
}

impl TaryMiddleware for RegexMiddleware {
    /// Sets the middleware up from the configuration (see `spec_init`).
    fn init(cfg: &Config) -> (r: Option<Self>)
        ensures
            Self::spec_init(*cfg, r),
    {
        match &cfg.middlewares.regex {
            Some(c) => {
                if c.enabled {
                    let mut rules: Vec<RegexRule> = Vec::new();
                    let mut i: usize = 0;
                    while i < c.regexes.len()
                        invariant
                            i <= c.regexes@.len(),
                            rules@.len() == i,
                            forall|j: int|
                                0 <= j < i ==> {
                                    &&& #[trigger] rules@[j].pattern@ == c.regexes@[j].0@
                                    &&& rules@[j].replacement@ == c.regexes@[j].1@
                                    &&& rules@[j].global == (c.regexes@[j].2 == Some(true))
                                },
                        decreases c.regexes@.len() - i,
                    {
                        let (p, rep, g) = &c.regexes[i];
                        let global = match g {
                            Some(b) => *b,
                            None => false,
                        };
                        let ghost before = rules@;
                        rules.push(RegexRule { pattern: p.clone(), replacement: rep.clone(), global });
                        assert(forall|j: int| 0 <= j < i ==> rules@[j] == before[j]);
                        i = i + 1;
                    }
                    Some(RegexMiddleware { order: c.order, rules })
                } else {
                    None
                }
            },
            None => None,
        }
    }

    open spec fn spec_order(&self) -> u32 {
        self.order
    }

    open spec fn transforms(&self, before: Content, after: Content) -> bool {
        &&& after.content@ == self.rewrite(before.content@)
        &&& after.content_type == before.content_type
        &&& after.source == before.source
        &&& after.dest == before.dest
        &&& after.date == before.date
        &&& after.due == before.due
    }

    fn order(&self) -> (r: u32) {
        self.order
    }

    fn transform(&self, ct: Content) -> (r: Content) {
        let Content { content_type, source, dest, date, due, content } = ct;
        Content { content_type, source, dest, date, due, content: self.apply(content) }
    }
}

} // verus!
