//! Data validation settings for a cell range: the validation type,
//! its formulas, the prompt and error texts, and the attribute list
//! they emit.

use crate::spec_dec_u64;
use crate::xmlwriter::{lemma_append_empty, lemma_push_concat, push_attr, push_attr_string};
use vstd::prelude::*;
use vstd::string::*;

verus! {

/// The first formula of a data validation.
#[derive(Clone, Debug)]
pub struct Formula1 {
    /// The formula text.
    pub value: String,
}

/// The second formula of a data validation.
#[derive(Clone, Debug)]
pub struct Formula2 {
    /// The formula text.
    pub value: String,
}

/// A data validation: every field is optional and unset by default,
/// and only set fields emit attributes.
#[derive(Debug)]
pub struct DataValidation {
    /// The validation type, such as a list or a whole number.
    pub validation_type: Option<String>,
    /// Whether blank cells pass the validation.
    pub allow_blank: Option<bool>,
    /// Whether the in-cell dropdown is shown.
    pub show_drop_down: Option<bool>,
    /// Whether the input message is shown.
    pub show_input_message: Option<bool>,
    /// Whether the error message is shown.
    pub show_error_message: Option<bool>,
    /// The title of the error message.
    pub error_title: Option<String>,
    /// The body of the error message.
    pub error: Option<String>,
    /// The title of the input prompt.
    pub prompt_title: Option<String>,
    /// The body of the input prompt.
    pub prompt: Option<String>,
    /// The first validation formula.
    pub formula1: Option<Formula1>,
    /// The second validation formula.
    pub formula2: Option<Formula2>,
    /// The validated range: its first and last cell references.
    pub sqref: (String, String),
}

/// The text of a `"0"`/`"1"` boolean attribute.
pub open spec fn spec_bool_text(b: bool) -> Seq<char> {
    if b {
        "1"@
    } else {
        "0"@
    }
}

/// One optional attribute: a singleton when the field is set.
pub open spec fn spec_opt_attr(name: Seq<char>, v: Option<String>) -> Seq<(Seq<char>, Seq<char>)> {
    match v {
        Some(t) => seq![(name, t@)],
        None => Seq::empty(),
    }
}

/// One optional boolean attribute.
pub open spec fn spec_opt_bool_attr(name: Seq<char>, v: Option<bool>) -> Seq<
    (Seq<char>, Seq<char>),
> {
    match v {
        Some(b) => seq![(name, spec_bool_text(b))],
        None => Seq::empty(),
    }
}

/// The attribute list of a data validation: each set field in order,
/// then the `sqref` range.
pub open spec fn spec_validation_attrs(d: DataValidation) -> Seq<(Seq<char>, Seq<char>)> {
    spec_opt_attr("type"@, d.validation_type) + spec_opt_bool_attr("allowBlank"@, d.allow_blank)
        + spec_opt_bool_attr("showDropDown"@, d.show_drop_down) + spec_opt_bool_attr(
        "showInputMessage"@,
        d.show_input_message,
    ) + spec_opt_bool_attr("showErrorMessage"@, d.show_error_message) + spec_opt_attr(
        "errorTitle"@,
        d.error_title,
    ) + spec_opt_attr("error"@, d.error) + spec_opt_attr("promptTitle"@, d.prompt_title)
        + spec_opt_attr("prompt"@, d.prompt) + seq![
        ("sqref"@, d.sqref.0@ + ":"@ + d.sqref.1@),
    ]
}

impl DataValidation {
    /// A validation with nothing set.
    pub fn new() -> (r: DataValidation)
        ensures
            r.validation_type is None,
            r.allow_blank is None,
            r.show_drop_down is None,
            r.show_input_message is None,
            r.show_error_message is None,
            r.error_title is None,
            r.error is None,
            r.prompt_title is None,
            r.prompt is None,
            r.formula1 is None,
            r.formula2 is None,
            r.sqref.0@ == Seq::<char>::empty(),
            r.sqref.1@ == Seq::<char>::empty(),
    {
        DataValidation {
            validation_type: None,
            allow_blank: None,
            show_drop_down: None,
            show_input_message: None,
            show_error_message: None,
            error_title: None,
            error: None,
            prompt_title: None,
            prompt: None,
            formula1: None,
            formula2: None,
            sqref: (String::new(), String::new()),
        }
    }

    /// Set the validation type.
    pub fn set_type(&mut self, value: &str)
        ensures
            *final(self) == (DataValidation {
                validation_type: final(self).validation_type,
                ..*old(self)
            }),
            final(self).validation_type matches Some(t) && t@ == value@,
    {
        self.validation_type = Some(String::from_str(value));
    }

    /// Set whether blank cells pass.
    pub fn set_allow_blank(&mut self, value: bool)
        ensures
            *final(self) == (DataValidation { allow_blank: Some(value), ..*old(self) }),
    {
        self.allow_blank = Some(value);
    }

    /// Set whether the dropdown is shown.
    pub fn set_show_drop_down(&mut self, value: bool)
        ensures
            *final(self) == (DataValidation { show_drop_down: Some(value), ..*old(self) }),
    {
        self.show_drop_down = Some(value);
    }

    /// Set whether the input message is shown.
    pub fn set_show_input_message(&mut self, value: bool)
        ensures
            *final(self) == (DataValidation { show_input_message: Some(value), ..*old(self) }),
    {
        self.show_input_message = Some(value);
    }

    /// Set whether the error message is shown.
    pub fn set_show_error_message(&mut self, value: bool)
        ensures
            *final(self) == (DataValidation { show_error_message: Some(value), ..*old(self) }),
    {
        self.show_error_message = Some(value);
    }

    /// Set the error title.
    pub fn set_error_title(&mut self, value: &str)
        ensures
            *final(self) == (DataValidation { error_title: final(self).error_title, ..*old(self) }),
            final(self).error_title matches Some(t) && t@ == value@,
    {
        self.error_title = Some(String::from_str(value));
    }

    /// Set the error body.
    pub fn set_error(&mut self, value: &str)
        ensures
            *final(self) == (DataValidation { error: final(self).error, ..*old(self) }),
            final(self).error matches Some(t) && t@ == value@,
    {
        self.error = Some(String::from_str(value));
    }

    /// Set the prompt title.
    pub fn set_prompt_title(&mut self, value: &str)
        ensures
            *final(self) == (DataValidation {
                prompt_title: final(self).prompt_title,
                ..*old(self)
            }),
            final(self).prompt_title matches Some(t) && t@ == value@,
    {
        self.prompt_title = Some(String::from_str(value));
    }

    /// Set the prompt body.
    pub fn set_prompt(&mut self, value: &str)
        ensures
            *final(self) == (DataValidation { prompt: final(self).prompt, ..*old(self) }),
            final(self).prompt matches Some(t) && t@ == value@,
    {
        self.prompt = Some(String::from_str(value));
    }

    /// Set the first validation formula.
    pub fn set_formula1(&mut self, value: &str)
        ensures
            *final(self) == (DataValidation { formula1: final(self).formula1, ..*old(self) }),
            final(self).formula1 matches Some(f) && f.value@ == value@,
    {
        self.formula1 = Some(Formula1 { value: String::from_str(value) });
    }

    /// Set the second validation formula.
    pub fn set_formula2(&mut self, value: &str)
        ensures
            *final(self) == (DataValidation { formula2: final(self).formula2, ..*old(self) }),
            final(self).formula2 matches Some(f) && f.value@ == value@,
    {
        self.formula2 = Some(Formula2 { value: String::from_str(value) });
    }

    /// Set the validated range by its first and last cell references.
    pub fn set_sqref(&mut self, start: &str, end: &str)
        ensures
            *final(self) == (DataValidation { sqref: final(self).sqref, ..*old(self) }),
            final(self).sqref.0@ == start@,
            final(self).sqref.1@ == end@,
    {
        self.sqref = (String::from_str(start), String::from_str(end));
    }

    /// The attribute list the validation emits: each set field in
    /// order, then the `sqref` range.
    #[verifier::spinoff_prover]
    #[verifier::rlimit(100)]
    pub fn get_attributes(&self) -> (r: Vec<(String, String)>)
        ensures
            r.deep_view() == spec_validation_attrs(*self),
    {
        let mut attrs: Vec<(String, String)> = Vec::new();
        proof {
            assert(attrs.deep_view() =~= Seq::<(Seq<char>, Seq<char>)>::empty());
        }
        let ghost p1 = spec_opt_attr("type"@, self.validation_type);
        if let Some(validation_type) = &self.validation_type {
            push_attr_string(&mut attrs, "type", validation_type.clone());
        }
        proof {
            if self.validation_type is None {
                lemma_append_empty(Seq::<(Seq<char>, Seq<char>)>::empty());
            } else {
                lemma_push_concat(
                    Seq::<(Seq<char>, Seq<char>)>::empty(),
                    ("type"@, self.validation_type->0@),
                );
            }
            assert(attrs.deep_view() =~= Seq::<(Seq<char>, Seq<char>)>::empty() + p1);
        }
        let ghost d1 = Seq::<(Seq<char>, Seq<char>)>::empty() + p1;
        let ghost p2 = spec_opt_bool_attr("allowBlank"@, self.allow_blank);
        if let Some(allow_blank) = self.allow_blank {
            if allow_blank {
                push_attr(&mut attrs, "allowBlank", "1");
            } else {
                push_attr(&mut attrs, "allowBlank", "0");
            }
        }
        proof {
            if self.allow_blank is None {
                lemma_append_empty(d1);
            } else {
                lemma_push_concat(d1, ("allowBlank"@, spec_bool_text(self.allow_blank->0)));
            }
            assert(attrs.deep_view() =~= d1 + p2);
        }
        let ghost d2 = d1 + p2;
        let ghost p3 = spec_opt_bool_attr("showDropDown"@, self.show_drop_down);
        if let Some(show_drop_down) = self.show_drop_down {
            if show_drop_down {
                push_attr(&mut attrs, "showDropDown", "1");
            } else {
                push_attr(&mut attrs, "showDropDown", "0");
            }
        }
        proof {
            if self.show_drop_down is None {
                lemma_append_empty(d2);
            } else {
                lemma_push_concat(d2, ("showDropDown"@, spec_bool_text(self.show_drop_down->0)));
            }
            assert(attrs.deep_view() =~= d2 + p3);
        }
        let ghost d3 = d2 + p3;
        let ghost p4 = spec_opt_bool_attr("showInputMessage"@, self.show_input_message);
        if let Some(show_input_message) = self.show_input_message {
            if show_input_message {
                push_attr(&mut attrs, "showInputMessage", "1");
            } else {
                push_attr(&mut attrs, "showInputMessage", "0");
            }
        }
        proof {
            if self.show_input_message is None {
                lemma_append_empty(d3);
            } else {
                lemma_push_concat(
                    d3,
                    ("showInputMessage"@, spec_bool_text(self.show_input_message->0)),
                );
            }
            assert(attrs.deep_view() =~= d3 + p4);
        }
        let ghost d4 = d3 + p4;
        let ghost p5 = spec_opt_bool_attr("showErrorMessage"@, self.show_error_message);
        if let Some(show_error_message) = self.show_error_message {
            if show_error_message {
                push_attr(&mut attrs, "showErrorMessage", "1");
            } else {
                push_attr(&mut attrs, "showErrorMessage", "0");
            }
        }
        proof {
            if self.show_error_message is None {
                lemma_append_empty(d4);
            } else {
                lemma_push_concat(
                    d4,
                    ("showErrorMessage"@, spec_bool_text(self.show_error_message->0)),
                );
            }
            assert(attrs.deep_view() =~= d4 + p5);
        }
        let ghost d5 = d4 + p5;
        let ghost p6 = spec_opt_attr("errorTitle"@, self.error_title);
        if let Some(error_title) = &self.error_title {
            push_attr_string(&mut attrs, "errorTitle", error_title.clone());
        }
        proof {
            if self.error_title is None {
                lemma_append_empty(d5);
            } else {
                lemma_push_concat(d5, ("errorTitle"@, self.error_title->0@));
            }
            assert(attrs.deep_view() =~= d5 + p6);
        }
        let ghost d6 = d5 + p6;
        let ghost p7 = spec_opt_attr("error"@, self.error);
        if let Some(error) = &self.error {
            push_attr_string(&mut attrs, "error", error.clone());
        }
        proof {
            if self.error is None {
                lemma_append_empty(d6);
            } else {
                lemma_push_concat(d6, ("error"@, self.error->0@));
            }
            assert(attrs.deep_view() =~= d6 + p7);
        }
        let ghost d7 = d6 + p7;
        let ghost p8 = spec_opt_attr("promptTitle"@, self.prompt_title);
        if let Some(prompt_title) = &self.prompt_title {
            push_attr_string(&mut attrs, "promptTitle", prompt_title.clone());
        }
        proof {
            if self.prompt_title is None {
                lemma_append_empty(d7);
            } else {
                lemma_push_concat(d7, ("promptTitle"@, self.prompt_title->0@));
            }
            assert(attrs.deep_view() =~= d7 + p8);
        }
        let ghost d8 = d7 + p8;
        let ghost p9 = spec_opt_attr("prompt"@, self.prompt);
        if let Some(prompt) = &self.prompt {
            push_attr_string(&mut attrs, "prompt", prompt.clone());
        }
        proof {
            if self.prompt is None {
                lemma_append_empty(d8);
            } else {
                lemma_push_concat(d8, ("prompt"@, self.prompt->0@));
            }
            assert(attrs.deep_view() =~= d8 + p9);
        }
        let ghost d9 = d8 + p9;
        let mut sqref = self.sqref.0.clone();
        sqref.append(":");
        sqref.append(self.sqref.1.as_str());
        push_attr_string(&mut attrs, "sqref", sqref);
        proof {
            lemma_push_concat(d9, ("sqref"@, self.sqref.0@ + ":"@ + self.sqref.1@));
            assert(attrs.deep_view() =~= d9 + seq![("sqref"@, self.sqref.0@ + ":"@ + self.sqref.1@)]);
            assert(attrs.deep_view() == spec_validation_attrs(*self));
        }
        attrs
    }
}

impl Default for DataValidation {
    /// A validation with nothing set.
    fn default() -> (r: DataValidation)
        ensures
            r.validation_type is None,
            r.formula1 is None,
            r.formula2 is None,
    {
        DataValidation::new()
    }
}

} // verus!
