use vstd::prelude::*;

verus! {

/// One of the two fields of the converter.
#[derive(Clone, Copy, Debug, PartialEq, Eq, Structural)]
pub enum TemperatureUnit {
    Celsius,
    Fahrenheit,
}

/// The full text of a field at the moment the user changed it, tagged with the field.
#[derive(Clone, Debug, PartialEq, Eq)]
pub enum TemperatureEdit {
    Celsius(String),
    Fahrenheit(String),
}

/// What one field shows: a number of the canonical pair, or the raw text of a failed edit.
#[derive(Clone, Debug, PartialEq)]
pub enum FieldDisplay<N> {
    Valid(N),
    Invalid(String),
}

/// The converter's state: the canonical Celsius/Fahrenheit pair and at most one
/// remembered edit whose text did not parse as a number.
///
/// The numeric type `N` is left to the caller, which also parses edits and converts
/// between units; the state only decides where each value goes and what each field shows.
#[derive(Clone, Debug, PartialEq)]
pub struct TemperatureState<N> {
    pub celsius: N,
    pub fahrenheit: N,
    pub failed_edit: Option<TemperatureEdit>,
}

impl TemperatureUnit {
    /// The field that is not this one.
    pub open spec fn other(self) -> TemperatureUnit {
        match self {
            TemperatureUnit::Celsius => TemperatureUnit::Fahrenheit,
            TemperatureUnit::Fahrenheit => TemperatureUnit::Celsius,
        }
    }

    /// The edit that carries `text` for this field.
    pub open spec fn edit_of(self, text: String) -> TemperatureEdit {
        match self {
            TemperatureUnit::Celsius => TemperatureEdit::Celsius(text),
            TemperatureUnit::Fahrenheit => TemperatureEdit::Fahrenheit(text),
        }
    }

    pub fn to_input(&self, value: String) -> (r: TemperatureEdit)
        ensures
            r == self.edit_of(value),
    {
        match self {
            TemperatureUnit::Celsius => TemperatureEdit::Celsius(value),
            TemperatureUnit::Fahrenheit => TemperatureEdit::Fahrenheit(value),
        }
    }
}

impl TemperatureEdit {
    pub open spec fn unit_of(self) -> TemperatureUnit {
        match self {
            TemperatureEdit::Celsius(_) => TemperatureUnit::Celsius,
            TemperatureEdit::Fahrenheit(_) => TemperatureUnit::Fahrenheit,
        }
    }

    pub open spec fn text_of(self) -> String {
        match self {
            TemperatureEdit::Celsius(t) => t,
            TemperatureEdit::Fahrenheit(t) => t,
        }
    }

    /// The field this edit was typed into.
    pub fn unit(&self) -> (r: TemperatureUnit)
        ensures
            r == self.unit_of(),
    {
        match self {
            TemperatureEdit::Celsius(_) => TemperatureUnit::Celsius,
            TemperatureEdit::Fahrenheit(_) => TemperatureUnit::Fahrenheit,
        }
    }

    /// The raw text of this edit, unmodified.
    pub fn text(&self) -> (r: &String)
        ensures
            *r == self.text_of(),
    {
        match self {
            TemperatureEdit::Celsius(t) => t,
            TemperatureEdit::Fahrenheit(t) => t,
        }
    }
}

impl<N> FieldDisplay<N> {
    pub open spec fn valid(self) -> bool {
        self is Valid
    }

    /// Whether the field shows a number of the canonical pair.
    pub fn is_valid(&self) -> (r: bool)
        ensures
            r == self.valid(),
    {
        match self {
            FieldDisplay::Valid(_) => true,
            FieldDisplay::Invalid(_) => false,
        }
    }
}

impl<N: Copy> TemperatureState<N> {
    /// The state after `edit`, where `reading` is `None` when the edit's text does not
    /// parse, and otherwise holds the parsed value followed by that value converted
    /// to the other unit.
    pub open spec fn edited(self, edit: TemperatureEdit, reading: Option<(N, N)>) -> Self {
        match reading {
            Some((typed, converted)) => match edit {
                TemperatureEdit::Celsius(_) => TemperatureState {
                    celsius: typed,
                    fahrenheit: converted,
                    failed_edit: None,
                },
                TemperatureEdit::Fahrenheit(_) => TemperatureState {
                    celsius: converted,
                    fahrenheit: typed,
                    failed_edit: None,
                },
            },
            None => TemperatureState { failed_edit: Some(edit), ..self },
        }
    }

    /// This state's value of the canonical pair in `unit`.
    pub open spec fn value_in(self, unit: TemperatureUnit) -> N {
        match unit {
            TemperatureUnit::Celsius => self.celsius,
            TemperatureUnit::Fahrenheit => self.fahrenheit,
        }
    }

    /// What the field of `unit` shows: the raw text of the failed edit when that edit
    /// belongs to this field, and otherwise the field's value of the canonical pair.
    pub open spec fn shown(self, unit: TemperatureUnit) -> FieldDisplay<N> {
        match self.failed_edit {
            Some(e) if e.unit_of() == unit => FieldDisplay::Invalid(e.text_of()),
            _ => FieldDisplay::Valid(self.value_in(unit)),
        }
    }

    /// A state holding the pair `(celsius, fahrenheit)` and no failed edit.
    pub fn new(celsius: N, fahrenheit: N) -> (r: Self)
        ensures
            r.celsius == celsius,
            r.fahrenheit == fahrenheit,
            r.failed_edit is None,
    {
        TemperatureState { celsius, fahrenheit, failed_edit: None }
    }

    /// Applies `edit` and returns the new state.
    ///
    /// `reading` is the outcome of parsing the edit's text: `None` when it is not a
    /// number, else the parsed value and its conversion to the other unit. A parsed
    /// edit sets the pair and clears any failed edit, whichever field it was in; an
    /// edit that did not parse leaves the pair alone and becomes the failed edit.
    pub fn with_edit(self, edit: TemperatureEdit, reading: Option<(N, N)>) -> (r: Self)
        ensures
            r == self.edited(edit, reading),
            match reading {
                Some((typed, converted)) => {
                    &&& r.failed_edit is None
                    &&& edit is Celsius ==> r.celsius == typed && r.fahrenheit == converted
                    &&& edit is Fahrenheit ==> r.fahrenheit == typed && r.celsius == converted
                },
                None => {
                    &&& r.celsius == self.celsius
                    &&& r.fahrenheit == self.fahrenheit
                    &&& r.failed_edit == Some(edit)
                },
            },
    {
        match reading {
            Some((typed, converted)) => match edit {
                TemperatureEdit::Celsius(_) => TemperatureState {
                    celsius: typed,
                    fahrenheit: converted,
                    failed_edit: None,
                },
                TemperatureEdit::Fahrenheit(_) => TemperatureState {
                    celsius: converted,
                    fahrenheit: typed,
                    failed_edit: None,
                },
            },
            None => TemperatureState {
                celsius: self.celsius,
                fahrenheit: self.fahrenheit,
                failed_edit: Some(edit),
            },
        }
    }

    /// What the field of `unit` shows in this state.
    pub fn display_for(&self, unit: TemperatureUnit) -> (r: FieldDisplay<N>)
        ensures
            r == self.shown(unit),
    {
        match &self.failed_edit {
            Some(e) if e.unit() == unit => FieldDisplay::Invalid(e.text().clone()),
            _ => match unit {
                TemperatureUnit::Celsius => FieldDisplay::Valid(self.celsius),
                TemperatureUnit::Fahrenheit => FieldDisplay::Valid(self.fahrenheit),
            },
        }
    }

    /// What the Celsius field shows in this state.
    pub fn c_display(&self) -> (r: FieldDisplay<N>)
        ensures
            r == self.shown(TemperatureUnit::Celsius),
    {
        self.display_for(TemperatureUnit::Celsius)
    }

    /// What the Fahrenheit field shows in this state.
    pub fn f_display(&self) -> (r: FieldDisplay<N>)
        ensures
            r == self.shown(TemperatureUnit::Fahrenheit),
    {
        self.display_for(TemperatureUnit::Fahrenheit)
    }
}

/// Applying the same edit, with the same outcome of parsing, a second time in
/// succession leaves the state as the first application left it.
pub proof fn lemma_edit_idempotent<N: Copy>(
    s: TemperatureState<N>,
    edit: TemperatureEdit,
    reading: Option<(N, N)>,
)
    ensures
        s.edited(edit, reading).edited(edit, reading) == s.edited(edit, reading),
{
}

/// After an edit that parsed, both fields show values of the canonical pair: the
/// typed value in the edited field and its conversion in the other one, and a failed
/// edit remembered in either field before is gone.
pub proof fn lemma_parsed_edit_shows_pair<N: Copy>(
    s: TemperatureState<N>,
    edit: TemperatureEdit,
    typed: N,
    converted: N,
)
    ensures
        ({
            let t = s.edited(edit, Some((typed, converted)));
            &&& t.shown(edit.unit_of()) == FieldDisplay::Valid(typed)
            &&& t.shown(edit.unit_of().other()) == FieldDisplay::Valid(converted)
        }),
{
}

/// After an edit that did not parse, its field shows its raw text as invalid, the
/// pair is unchanged, and the other field shows its value of that pair.
pub proof fn lemma_failed_edit_shows_text<N: Copy>(
    s: TemperatureState<N>,
    edit: TemperatureEdit,
)
    ensures
        ({
            let t = s.edited(edit, None);
            let u = edit.unit_of();
            &&& t.shown(u) == FieldDisplay::<N>::Invalid(edit.text_of())
            &&& t.shown(u.other()) == FieldDisplay::<N>::Valid(s.value_in(u.other()))
            &&& t.celsius == s.celsius
            &&& t.fahrenheit == s.fahrenheit
        }),
{
}

} // verus!
