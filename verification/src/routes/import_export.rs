//! The bulk import of students: what is decided before the job starts, and
//! what the job makes of the outcome of each student.

use crate::config::auth::AuthConfig;
use crate::data::student_groups::HouseGroup;
use crate::data::{email_address_is_valid, email_is_valid, parse_optional_id, uuid_parsed};
use crate::error::{DenimError, DenimResult};
use crate::routes::all_events::{parse_civil, strptime_parsed, CivilDateTime, DatePattern};
use crate::routes::sse::SseEvent;
use crate::text::{
    decimal, decimal_text, lemma_bytes_le_total, lemma_bytes_le_transitive, text_at_most, text_le,
};
use crate::data::user::{AddPersonForm, AddUserKind};
use std::collections::HashMap;
use vstd::prelude::*;
use vstd::string::*;

verus! {

/// One student of an uploaded file.
#[derive(Clone, Debug)]
pub struct NewCSVStudent {
    pub first_name: String,
    pub pref_name: String,
    pub surname: String,
    pub email: String,
    pub house: String,
    pub tutor_email: String,
}

/// The query of the page that shows how the import is getting on.
#[derive(Clone, Debug)]
pub struct ImportCheckerQuery {
    pub dots: String,
}

/// The form that confirms the import of events that were read before.
#[derive(Clone, Debug)]
pub struct FullEventsForm {
    pub b64events: String,
    pub tz: String,
    pub associated_staff_member: String,
}

/// One student that is ready to be added: the tutor group is known.
#[derive(Clone, Debug)]
pub struct DraftIndividualStudent {
    pub first_name: String,
    pub pref_name: String,
    pub surname: String,
    pub email: String,
    pub tutor_group: u128,
    pub house: i32,
}

/// One student that could not be added, with the text of the failure.
#[derive(Clone, Debug)]
pub struct ImportFailure {
    pub email: String,
    pub message: String,
}

/// What the import job has to report when it has gone through every
/// student.
#[derive(Debug)]
pub struct ImportReport {
    /// How many students were added.
    pub added: usize,
    /// The students that could not be added, in the order of the input.
    pub failures: Vec<ImportFailure>,
    /// The list of e-mail addresses and default passwords of the students
    /// that were added, as the lines of a CSV file.
    pub output_csv: String,
    /// Why the store failed, if it did: then the job stopped there, and
    /// nothing of what it wrote can be kept.
    pub store_failure: Option<String>,
}

/// How adding one item of a batch ended.
#[derive(Debug)]
pub enum ItemOutcome {
    /// The item was added.
    Added,
    /// The item itself is at fault, for this reason: it is left out, and the
    /// batch goes on.
    BadRow(String),
    /// The store failed, for this reason: the batch cannot go on, and
    /// nothing of what it wrote can be kept.
    StoreFailed(String),
}

impl ItemOutcome {
    /// How adding an item ended, given how the attempt to write it went and
    /// how the store took the end of the attempt: keeping what was written
    /// after a success, undoing it after a failure. A failed attempt that the
    /// store could undo is the fault of the item; where the store could not
    /// even end the attempt, the store has failed.
    pub fn of_insert(written: Result<(), String>, ended: Result<(), String>) -> (outcome: Self)
        ensures
            outcome == match (written, ended) {
                (Ok(()), Ok(())) => ItemOutcome::Added,
                (Err(reason), Ok(())) => ItemOutcome::BadRow(reason),
                (_, Err(reason)) => ItemOutcome::StoreFailed(reason),
            },
    {
        match ended {
            Ok(()) => match written {
                Ok(()) => ItemOutcome::Added,
                Err(reason) => ItemOutcome::BadRow(reason),
            },
            Err(reason) => ItemOutcome::StoreFailed(reason),
        }
    }

    /// What this outcome adds to the outcomes of the students that were
    /// tried: nothing where the store failed, for then the student was not
    /// decided on.
    pub open spec fn row(self) -> Option<Outcome> {
        match self {
            ItemOutcome::Added => Some(None),
            ItemOutcome::BadRow(reason) => Some(Some(reason@)),
            ItemOutcome::StoreFailed(_) => None,
        }
    }

    /// Why the store failed, if this outcome says that it did.
    pub open spec fn store_failure(self) -> Option<Seq<char>> {
        match self {
            ItemOutcome::StoreFailed(reason) => Some(reason@),
            _ => None,
        }
    }
}

/// How adding one student ended: well, or with the text of a failure.
pub type Outcome = Option<Seq<char>>;

/// How many of the first `upto` outcomes are successes.
pub open spec fn count_added(outcomes: Seq<Outcome>, upto: int) -> nat
    decreases upto,
{
    if upto <= 0 {
        0
    } else {
        count_added(outcomes, upto - 1) + if outcomes[upto - 1] is None {
            1nat
        } else {
            0nat
        }
    }
}

/// The failures among the first `upto` outcomes, each with the e-mail
/// address of its student, in the order of the input.
pub open spec fn failures_of(
    students: Seq<DraftIndividualStudent>,
    outcomes: Seq<Outcome>,
    upto: int,
) -> Seq<(Seq<char>, Seq<char>)>
    decreases upto,
{
    if upto <= 0 {
        Seq::empty()
    } else {
        let before = failures_of(students, outcomes, upto - 1);
        match outcomes[upto - 1] {
            Some(message) => before.push((students[upto - 1].email@, message)),
            None => before,
        }
    }
}

/// The header of the list of passwords.
pub open spec fn csv_header() -> Seq<char> {
    "email,default_password"@
}

/// The list of passwords after the first `upto` outcomes: the header, and
/// a line with e-mail address and password for each student that was added.
pub open spec fn csv_of(
    students: Seq<DraftIndividualStudent>,
    passwords: Seq<String>,
    outcomes: Seq<Outcome>,
    upto: int,
) -> Seq<char>
    decreases upto,
{
    if upto <= 0 {
        csv_header()
    } else {
        let before = csv_of(students, passwords, outcomes, upto - 1);
        match outcomes[upto - 1] {
            Some(_) => before,
            None => before + seq!['\n'] + students[upto - 1].email@ + seq![','] + passwords[upto
                - 1]@,
        }
    }
}

/// The e-mail addresses and messages of `failures`.
pub open spec fn failure_texts(failures: Seq<ImportFailure>) -> Seq<(Seq<char>, Seq<char>)> {
    Seq::new(failures.len(), |i: int| (failures[i].email@, failures[i].message@))
}

/// The import job as it goes through its students, one after the other.
/// For each student it hands out what is to be added and takes back how
/// that ended; at the end it reports what it has collected.
pub struct StudentsImport {
    students: Vec<DraftIndividualStudent>,
    passwords: Vec<String>,
    added: usize,
    failures: Vec<ImportFailure>,
    output_csv: String,
    store_failure: Option<String>,
    outcomes: Ghost<Seq<Outcome>>,
}

impl StudentsImport {
    /// The students of this job, in the order in which they are added.
    pub closed spec fn students(self) -> Seq<DraftIndividualStudent> {
        self.students@
    }

    /// The default passwords, one for each student.
    pub closed spec fn passwords(self) -> Seq<String> {
        self.passwords@
    }

    /// How adding went for the students that were tried so far.
    pub closed spec fn outcomes(self) -> Seq<Outcome> {
        self.outcomes@
    }

    /// Why the store failed, if it did: then the job has stopped.
    pub closed spec fn store_failure(self) -> Option<Seq<char>> {
        match self.store_failure {
            Some(reason) => Some(reason@),
            None => None,
        }
    }

    /// Whether a student is left to add: the store has not failed, and not
    /// every student was tried.
    pub open spec fn has_next(self) -> bool {
        self.store_failure() is None && self.outcomes().len() < self.students().len()
    }

    #[verifier::type_invariant]
    spec fn inv(self) -> bool {
        &&& self.students@.len() <= self.passwords@.len()
        &&& self.outcomes@.len() <= self.students@.len()
        &&& self.added == count_added(self.outcomes@, self.outcomes@.len() as int)
        &&& self.added + self.failures@.len() == self.outcomes@.len()
        &&& failure_texts(self.failures@) == failures_of(
            self.students@,
            self.outcomes@,
            self.outcomes@.len() as int,
        )
        &&& self.output_csv@ == csv_of(
            self.students@,
            self.passwords@,
            self.outcomes@,
            self.outcomes@.len() as int,
        )
    }

    /// A job for `students`, each with the password at the same place of
    /// `passwords`. There is no job where passwords are missing.
    pub fn new(students: Vec<DraftIndividualStudent>, passwords: Vec<String>) -> (job: Option<Self>)
        ensures
            job is Some <==> students@.len() <= passwords@.len(),
            job matches Some(j) ==> j.students() == students@ && j.passwords() == passwords@
                && j.outcomes() == Seq::<Outcome>::empty() && j.store_failure() is None,
    {
        if students.len() > passwords.len() {
            return None;
        }
        let failures: Vec<ImportFailure> = Vec::new();
        assert(failure_texts(failures@) =~= Seq::empty());
        Some(
            StudentsImport {
                students,
                passwords,
                added: 0,
                failures,
                output_csv: String::from_str("email,default_password"),
                store_failure: None,
                outcomes: Ghost(Seq::empty()),
            },
        )
    }

    /// How many students this job has.
    pub fn total(&self) -> (n: usize)
        ensures
            n == self.students().len(),
    {
        self.students.len()
    }

    /// How many students were tried so far.
    pub fn tried(&self) -> (n: usize)
        ensures
            n == self.outcomes().len(),
            n <= self.students().len(),
    {
        proof {
            use_type_invariant(self);
        }
        let _ = self.students.len();
        self.added + self.failures.len()
    }

    /// What is to be added for a student: a student of the tutor group and
    /// house, with the given password as a default password.
    pub open spec fn form_for(student: DraftIndividualStudent, password: String, form: AddPersonForm) -> bool {
        &&& form.first_name@ == student.first_name@
        &&& form.pref_name@ == student.pref_name@
        &&& form.surname@ == student.surname@
        &&& form.email@ == student.email@
        &&& form.password matches Some(p) && p@ == password@
        &&& form.current_password_is_default
        &&& form.user_kind == (AddUserKind::Student {
            tutor_group: student.tutor_group,
            house: student.house,
        })
    }

    /// The next student to add, if any is left. None is left once the store
    /// has failed.
    pub fn next_student(&self) -> (form: Option<AddPersonForm>)
        ensures
            form is Some <==> self.has_next(),
            form matches Some(f) ==> Self::form_for(
                self.students()[self.outcomes().len() as int],
                self.passwords()[self.outcomes().len() as int],
                f,
            ),
    {
        proof {
            use_type_invariant(self);
        }
        let total = self.students.len();
        let at = self.added + self.failures.len();
        if at >= total || self.store_failure.is_some() {
            return None;
        }
        let student = &self.students[at];
        Some(
            AddPersonForm {
                first_name: student.first_name.clone(),
                pref_name: student.pref_name.clone(),
                surname: student.surname.clone(),
                email: student.email.clone(),
                password: Some(self.passwords[at].clone()),
                current_password_is_default: true,
                user_kind: AddUserKind::Student {
                    tutor_group: student.tutor_group,
                    house: student.house,
                },
            },
        )
    }

    /// Takes note of how adding the next student ended. A student that was
    /// added goes into the list of passwords; a student that is itself at
    /// fault is kept for the report, and the job goes on with the next; a
    /// failure of the store stops the job. Returns the progress to publish,
    /// which is how many students were tried and how many there are, after a
    /// student was added, and nothing otherwise. Where no student was left,
    /// nothing changes.
    pub fn record(&mut self, outcome: ItemOutcome) -> (progress: Option<(usize, usize)>)
        ensures
            final(self).students() == old(self).students(),
            final(self).passwords() == old(self).passwords(),
            final(self).outcomes() == (if old(self).has_next() {
                match outcome.row() {
                    Some(row) => old(self).outcomes().push(row),
                    None => old(self).outcomes(),
                }
            } else {
                old(self).outcomes()
            }),
            final(self).store_failure() == (if old(self).has_next() {
                outcome.store_failure()
            } else {
                old(self).store_failure()
            }),
            progress == (if old(self).has_next() && outcome is Added {
                Some((final(self).outcomes().len() as usize, old(self).students().len() as usize))
            } else {
                None
            }),
    {
        proof {
            use_type_invariant(&*self);
        }
        let total = self.students.len();
        let at = self.added + self.failures.len();
        if at >= total || self.store_failure.is_some() {
            return None;
        }
        let mut taken = Self::without_students();
        core::mem::swap(self, &mut taken);
        let StudentsImport {
            students,
            passwords,
            added,
            failures,
            output_csv,
            store_failure,
            outcomes,
        } = taken;
        let mut added = added;
        let mut failures = failures;
        let mut output_csv = output_csv;
        let mut store_failure = store_failure;
        let ghost before = outcomes@;
        let ghost after = match outcome.row() {
            Some(row) => before.push(row),
            None => before,
        };
        proof {
            lemma_prefix_ignores_later(students@, passwords@, before, after, at as int);
            if outcome.row() is Some {
                assert(after.len() == at + 1);
                assert(after[at as int] == outcome.row()->0);
            }
        }
        let progress = match outcome {
            ItemOutcome::BadRow(message) => {
                let ghost texts = failure_texts(failures@);
                failures.push(ImportFailure { email: students[at].email.clone(), message });
                assert(failure_texts(failures@) =~= texts.push(
                    (students@[at as int].email@, message@),
                ));
                None
            },
            ItemOutcome::Added => {
                proof {
                    reveal_strlit("\n");
                    reveal_strlit(",");
                }
                output_csv.append("\n");
                output_csv.append(students[at].email.as_str());
                output_csv.append(",");
                output_csv.append(passwords[at].as_str());
                assert("\n"@ =~= seq!['\n']);
                assert(","@ =~= seq![',']);
                added = added + 1;
                Some((at + 1, total))
            },
            ItemOutcome::StoreFailed(reason) => {
                store_failure = Some(reason);
                None
            },
        };
        *self = StudentsImport {
            students,
            passwords,
            added,
            failures,
            output_csv,
            store_failure,
            outcomes: Ghost(after),
        };
        progress
    }

    /// A job without students.
    fn without_students() -> (job: Self)
        ensures
            job.students() == Seq::<DraftIndividualStudent>::empty(),
    {
        let failures: Vec<ImportFailure> = Vec::new();
        assert(failure_texts(failures@) =~= Seq::empty());
        StudentsImport {
            students: Vec::new(),
            passwords: Vec::new(),
            added: 0,
            failures,
            output_csv: String::from_str("email,default_password"),
            store_failure: None,
            outcomes: Ghost(Seq::empty()),
        }
    }

    /// Whether the job is over: every student was tried, or the store has
    /// failed.
    pub fn is_done(&self) -> (done: bool)
        ensures
            done == !self.has_next(),
    {
        proof {
            use_type_invariant(self);
        }
        let total = self.students.len();
        self.added + self.failures.len() >= total || self.store_failure.is_some()
    }

    /// The report of the job: how many students were added, which were not
    /// and why, the list of passwords of those that were added, and why the
    /// store failed, if it did. A student that is itself at fault is in the
    /// report and nowhere else: it does not keep the others from being added.
    pub fn finish(self) -> (report: ImportReport)
        ensures
            report.added == count_added(self.outcomes(), self.outcomes().len() as int),
            failure_texts(report.failures@) == failures_of(
                self.students(),
                self.outcomes(),
                self.outcomes().len() as int,
            ),
            report.output_csv@ == csv_of(
                self.students(),
                self.passwords(),
                self.outcomes(),
                self.outcomes().len() as int,
            ),
            report.added + report.failures@.len() == self.outcomes().len(),
            text_of(report.store_failure) == self.store_failure(),
    {
        proof {
            use_type_invariant(&self);
        }
        let StudentsImport {
            students,
            passwords,
            added,
            failures,
            output_csv,
            store_failure,
            outcomes,
        } = self;
        ImportReport { added, failures, output_csv, store_failure }
    }
}

/// What was collected over the first `upto` outcomes does not depend on the
/// outcomes that follow.
pub proof fn lemma_prefix_ignores_later(
    students: Seq<DraftIndividualStudent>,
    passwords: Seq<String>,
    shorter: Seq<Outcome>,
    longer: Seq<Outcome>,
    upto: int,
)
    requires
        0 <= upto <= shorter.len() <= longer.len(),
        forall|i: int| 0 <= i < upto ==> shorter[i] == longer[i],
    ensures
        count_added(shorter, upto) == count_added(longer, upto),
        failures_of(students, shorter, upto) == failures_of(students, longer, upto),
        csv_of(students, passwords, shorter, upto) == csv_of(students, passwords, longer, upto),
    decreases upto,
{
    if upto > 0 {
        lemma_prefix_ignores_later(students, passwords, shorter, longer, upto - 1);
    }
}

/// A tutor group that is known: the house, the e-mail address of its member
/// of staff, and its identifier.
#[derive(Clone, Debug)]
pub struct KnownTutorGroup {
    pub tutor_email: String,
    pub house_id: i32,
    pub id: u128,
}

/// A member of staff that is known, by e-mail address.
#[derive(Clone, Debug)]
pub struct KnownTeacher {
    pub email: String,
    pub id: u128,
}

/// The number of the house called `name`; of several houses of that name the
/// last counts.
pub open spec fn find_house(houses: Seq<HouseGroup>, name: Seq<char>) -> Option<i32>
    decreases houses.len(),
{
    if houses.len() == 0 {
        None
    } else if houses.last().name@ == name {
        Some(houses.last().id)
    } else {
        find_house(houses.drop_last(), name)
    }
}

/// The tutor group of the member of staff with e-mail address `email` in
/// house `house_id`; of several the last counts.
pub open spec fn find_tutor_group(groups: Seq<KnownTutorGroup>, email: Seq<char>, house_id: i32) -> Option<
    u128,
>
    decreases groups.len(),
{
    if groups.len() == 0 {
        None
    } else if groups.last().tutor_email@ == email && groups.last().house_id == house_id {
        Some(groups.last().id)
    } else {
        find_tutor_group(groups.drop_last(), email, house_id)
    }
}

/// The member of staff with e-mail address `email`; of several the last
/// counts.
pub open spec fn find_teacher(teachers: Seq<KnownTeacher>, email: Seq<char>) -> Option<u128>
    decreases teachers.len(),
{
    if teachers.len() == 0 {
        None
    } else if teachers.last().email@ == email {
        Some(teachers.last().id)
    } else {
        find_teacher(teachers.drop_last(), email)
    }
}

/// Whether `email` is among `emails`.
pub open spec fn has_email(emails: Seq<String>, email: Seq<char>) -> bool {
    exists|i: int| 0 <= i < emails.len() && (#[trigger] emails[i])@ == email
}

/// What stands in the way of adding one student of the file, if anything.
#[derive(Clone, Copy, Debug, PartialEq, Eq, Structural)]
pub enum Placement {
    /// The e-mail address of the student or of the tutor is no address: the
    /// student is left out, and the error is noted.
    BadAddress,
    /// The house of the student is not known: it has to be created first.
    NeedsHouse,
    /// The house is known and the tutor is a member of staff, but has no
    /// tutor group in that house: it has to be created first.
    NeedsTutorGroup { staff_id: u128, house_id: i32 },
    /// The tutor is no member of staff: the student is left out.
    TeacherMissing,
    /// Nothing: the student is ready to be added.
    Placed { tutor_group: u128, house_id: i32 },
}

/// What is known while the students of a file are read: the houses, tutor
/// groups and members of staff there are, and what was gathered so far.
#[derive(Debug)]
pub struct ImportPlan {
    pub houses: Vec<HouseGroup>,
    pub tutor_groups: Vec<KnownTutorGroup>,
    pub teachers: Vec<KnownTeacher>,
    /// The tutors that are no members of staff, each once.
    pub teachers_to_add: Vec<String>,
    pub students_to_add: Vec<DraftIndividualStudent>,
    pub syntax_errors: Vec<String>,
}

/// What reading the file came to.
#[derive(Debug)]
pub enum PlanOutcome {
    /// These tutors have to be added as members of staff first.
    MissingTeachers(Vec<String>),
    /// The file had these errors.
    SyntaxErrors(Vec<String>),
    /// These students are ready to be added.
    Ready(Vec<DraftIndividualStudent>),
}

impl ImportPlan {
    /// A plan that knows the given houses, tutor groups and members of
    /// staff, and has gathered nothing yet.
    pub fn new(
        houses: Vec<HouseGroup>,
        tutor_groups: Vec<KnownTutorGroup>,
        teachers: Vec<KnownTeacher>,
    ) -> (plan: Self)
        ensures
            plan.houses == houses,
            plan.tutor_groups == tutor_groups,
            plan.teachers == teachers,
            plan.teachers_to_add@.len() == 0,
            plan.students_to_add@.len() == 0,
            plan.syntax_errors@.len() == 0,
    {
        ImportPlan {
            houses,
            tutor_groups,
            teachers,
            teachers_to_add: Vec::new(),
            students_to_add: Vec::new(),
            syntax_errors: Vec::new(),
        }
    }

    /// What stands in the way of adding a student with the e-mail address
    /// `email`, of house `house`, whose tutor has the e-mail address
    /// `tutor_email`. The addresses are looked at first: nothing is looked up,
    /// let alone created, for a student whose addresses are not in order.
    pub open spec fn placement(self, email: Seq<char>, house: Seq<char>, tutor_email: Seq<char>) -> Placement {
        if !email_is_valid(email) || !email_is_valid(tutor_email) {
            Placement::BadAddress
        } else {
            match find_house(self.houses@, house) {
                None => Placement::NeedsHouse,
                Some(house_id) => match find_tutor_group(
                    self.tutor_groups@,
                    tutor_email,
                    house_id,
                ) {
                    Some(tutor_group) => Placement::Placed { tutor_group, house_id },
                    None => match find_teacher(self.teachers@, tutor_email) {
                        Some(staff_id) => Placement::NeedsTutorGroup { staff_id, house_id },
                        None => Placement::TeacherMissing,
                    },
                },
            }
        }
    }

    /// The error that is noted of a student whose own address, or else whose
    /// tutor's, is no address.
    pub open spec fn bad_address_message(email: Seq<char>, tutor_email: Seq<char>) -> Seq<char> {
        "Error parsing email address: "@ + (if !email_is_valid(email) {
            email
        } else {
            tutor_email
        })
    }

    fn house_of(&self, name: &String) -> (found: Option<i32>)
        ensures
            found == find_house(self.houses@, name@),
    {
        let mut i = self.houses.len();
        assert(self.houses@.take(i as int) =~= self.houses@);
        while i > 0
            invariant
                i <= self.houses@.len(),
                find_house(self.houses@, name@) == find_house(self.houses@.take(i as int), name@),
            decreases i,
        {
            i = i - 1;
            assert(self.houses@.take(i as int + 1).drop_last() =~= self.houses@.take(i as int));
            if self.houses[i].name == *name {
                return Some(self.houses[i].id);
            }
        }
        None
    }

    fn tutor_group_of(&self, email: &String, house_id: i32) -> (found: Option<u128>)
        ensures
            found == find_tutor_group(self.tutor_groups@, email@, house_id),
    {
        let mut i = self.tutor_groups.len();
        assert(self.tutor_groups@.take(i as int) =~= self.tutor_groups@);
        while i > 0
            invariant
                i <= self.tutor_groups@.len(),
                find_tutor_group(self.tutor_groups@, email@, house_id) == find_tutor_group(
                    self.tutor_groups@.take(i as int),
                    email@,
                    house_id,
                ),
            decreases i,
        {
            i = i - 1;
            assert(self.tutor_groups@.take(i as int + 1).drop_last() =~= self.tutor_groups@.take(
                i as int,
            ));
            if self.tutor_groups[i].house_id == house_id && self.tutor_groups[i].tutor_email
                == *email {
                return Some(self.tutor_groups[i].id);
            }
        }
        None
    }

    fn teacher_of(&self, email: &String) -> (found: Option<u128>)
        ensures
            found == find_teacher(self.teachers@, email@),
    {
        let mut i = self.teachers.len();
        assert(self.teachers@.take(i as int) =~= self.teachers@);
        while i > 0
            invariant
                i <= self.teachers@.len(),
                find_teacher(self.teachers@, email@) == find_teacher(
                    self.teachers@.take(i as int),
                    email@,
                ),
            decreases i,
        {
            i = i - 1;
            assert(self.teachers@.take(i as int + 1).drop_last() =~= self.teachers@.take(i as int));
            if self.teachers[i].email == *email {
                return Some(self.teachers[i].id);
            }
        }
        None
    }

    fn is_missing_teacher(&self, email: &String) -> (known: bool)
        ensures
            known == has_email(self.teachers_to_add@, email@),
    {
        let mut i: usize = 0;
        while i < self.teachers_to_add.len()
            invariant
                i <= self.teachers_to_add@.len(),
                forall|j: int| 0 <= j < i ==> (#[trigger] self.teachers_to_add@[j])@ != email@,
            decreases self.teachers_to_add@.len() - i,
        {
            if self.teachers_to_add[i] == *email {
                return true;
            }
            i = i + 1;
        }
        false
    }

    /// The student of the file as it is added once `placement` says that it
    /// is placed.
    pub open spec fn draft_of(student: NewCSVStudent, tutor_group: u128, house: i32) -> DraftIndividualStudent {
        DraftIndividualStudent {
            first_name: student.first_name,
            pref_name: student.pref_name,
            surname: student.surname,
            email: student.email,
            tutor_group,
            house,
        }
    }

    /// The plan after `student` was offered to it: a student that is placed
    /// is gathered for adding; the tutor of one whose tutor is no member of
    /// staff is noted, once; of one whose address is no address the error is
    /// noted; and where a house or a tutor group has to be created first,
    /// nothing changes.
    pub open spec fn after_offer(self, student: NewCSVStudent, after: ImportPlan) -> bool {
        &&& after.houses == self.houses
        &&& after.tutor_groups == self.tutor_groups
        &&& after.teachers == self.teachers
        &&& match self.placement(student.email@, student.house@, student.tutor_email@) {
            Placement::Placed { tutor_group, house_id } => {
                &&& after.syntax_errors == self.syntax_errors
                &&& after.teachers_to_add == self.teachers_to_add
                &&& after.students_to_add@ == self.students_to_add@.push(
                    Self::draft_of(student, tutor_group, house_id),
                )
            },
            Placement::TeacherMissing => {
                &&& after.syntax_errors == self.syntax_errors
                &&& after.students_to_add == self.students_to_add
                &&& after.teachers_to_add@ == (if has_email(
                    self.teachers_to_add@,
                    student.tutor_email@,
                ) {
                    self.teachers_to_add@
                } else {
                    self.teachers_to_add@.push(student.tutor_email)
                })
            },
            Placement::BadAddress => {
                &&& after.students_to_add == self.students_to_add
                &&& after.teachers_to_add == self.teachers_to_add
                &&& after.syntax_errors@.len() == self.syntax_errors@.len() + 1
                &&& after.syntax_errors@.drop_last() == self.syntax_errors@
                &&& after.syntax_errors@.last()@ == Self::bad_address_message(
                    student.email@,
                    student.tutor_email@,
                )
            },
            _ => {
                &&& after.syntax_errors == self.syntax_errors
                &&& after.students_to_add == self.students_to_add
                &&& after.teachers_to_add == self.teachers_to_add
            },
        }
    }

    /// Offers one student of the file to the plan and says what stands in
    /// the way of adding it. After `NeedsHouse` or `NeedsTutorGroup` the
    /// caller creates what is missing, tells the plan, and offers the student
    /// again.
    pub fn offer(&mut self, student: &NewCSVStudent) -> (placement: Placement)
        ensures
            placement == old(self).placement(
                student.email@,
                student.house@,
                student.tutor_email@,
            ),
            old(self).after_offer(*student, *final(self)),
    {
        let own_is_good = email_address_is_valid(student.email.as_str());
        if !own_is_good || !email_address_is_valid(student.tutor_email.as_str()) {
            let mut message = String::from_str("Error parsing email address: ");
            if !own_is_good {
                message.append(student.email.as_str());
            } else {
                message.append(student.tutor_email.as_str());
            }
            let ghost before = self.syntax_errors@;
            self.syntax_errors.push(message);
            assert(self.syntax_errors@.drop_last() =~= before);
            return Placement::BadAddress;
        }
        let house_id = match self.house_of(&student.house) {
            Some(id) => id,
            None => {
                return Placement::NeedsHouse;
            },
        };
        match self.tutor_group_of(&student.tutor_email, house_id) {
            Some(tutor_group) => {
                self.students_to_add.push(
                    DraftIndividualStudent {
                        first_name: student.first_name.clone(),
                        pref_name: student.pref_name.clone(),
                        surname: student.surname.clone(),
                        email: student.email.clone(),
                        tutor_group,
                        house: house_id,
                    },
                );
                Placement::Placed { tutor_group, house_id }
            },
            None => match self.teacher_of(&student.tutor_email) {
                Some(staff_id) => Placement::NeedsTutorGroup { staff_id, house_id },
                None => {
                    if !self.is_missing_teacher(&student.tutor_email) {
                        self.teachers_to_add.push(student.tutor_email.clone());
                    }
                    Placement::TeacherMissing
                },
            },
        }
    }

    /// Tells the plan that the house `name` was created with number `id`.
    pub fn remember_house(&mut self, name: String, id: i32)
        ensures
            final(self).houses@ == old(self).houses@.push(HouseGroup { id, name }),
            find_house(final(self).houses@, name@) == Some(id),
            final(self).tutor_groups == old(self).tutor_groups,
            final(self).teachers == old(self).teachers,
            final(self).teachers_to_add == old(self).teachers_to_add,
            final(self).students_to_add == old(self).students_to_add,
            final(self).syntax_errors == old(self).syntax_errors,
    {
        self.houses.push(HouseGroup { id, name });
    }

    /// Tells the plan that the tutor group of `tutor_email` in house
    /// `house_id` was created with identifier `id`.
    pub fn remember_tutor_group(&mut self, tutor_email: String, house_id: i32, id: u128)
        ensures
            final(self).tutor_groups@ == old(self).tutor_groups@.push(
                KnownTutorGroup { tutor_email, house_id, id },
            ),
            find_tutor_group(final(self).tutor_groups@, tutor_email@, house_id) == Some(id),
            final(self).houses == old(self).houses,
            final(self).teachers == old(self).teachers,
            final(self).teachers_to_add == old(self).teachers_to_add,
            final(self).students_to_add == old(self).students_to_add,
            final(self).syntax_errors == old(self).syntax_errors,
    {
        self.tutor_groups.push(KnownTutorGroup { tutor_email, house_id, id });
    }

    /// Notes that a record of the file could not be read.
    pub fn note_syntax_error(&mut self, message: String)
        ensures
            final(self).syntax_errors@ == old(self).syntax_errors@.push(message),
            final(self).houses == old(self).houses,
            final(self).tutor_groups == old(self).tutor_groups,
            final(self).teachers == old(self).teachers,
            final(self).teachers_to_add == old(self).teachers_to_add,
            final(self).students_to_add == old(self).students_to_add,
    {
        self.syntax_errors.push(message);
    }

    /// What reading the file came to: the tutors that are missing, if any;
    /// else the errors of the file, if any; else the students to add.
    pub fn outcome(self) -> (outcome: PlanOutcome)
        ensures
            outcome == (if self.teachers_to_add@.len() > 0 {
                PlanOutcome::MissingTeachers(self.teachers_to_add)
            } else if self.syntax_errors@.len() > 0 {
                PlanOutcome::SyntaxErrors(self.syntax_errors)
            } else {
                PlanOutcome::Ready(self.students_to_add)
            }),
    {
        if self.teachers_to_add.len() > 0 {
            PlanOutcome::MissingTeachers(self.teachers_to_add)
        } else if self.syntax_errors.len() > 0 {
            PlanOutcome::SyntaxErrors(self.syntax_errors)
        } else {
            PlanOutcome::Ready(self.students_to_add)
        }
    }
}

/// What the page that watches the import has to show.
#[derive(Debug)]
pub enum ImportStatus<R> {
    /// No job is admitted.
    NoJob,
    /// The job has finished, with this result; the slot is free again.
    Finished(R),
    /// The job is admitted and has not finished. `dots` is what follows the
    /// text that says so, and `progress` what the job last reported.
    Working { dots: &'static str, progress: Option<(usize, usize)> },
}

/// The dots to show after `dots` were shown: one more, up to three, then
/// none, then one again; one after anything else.
pub open spec fn dots_after(dots: Seq<char>) -> Seq<char> {
    if dots == seq!['.'] {
        seq!['.', '.']
    } else if dots == seq!['.', '.'] {
        seq!['.', '.', '.']
    } else if dots == seq!['.', '.', '.'] {
        Seq::empty()
    } else {
        seq!['.']
    }
}

/// The dots to show after `dots` were shown.
pub fn next_dots(dots: &str) -> (next: &'static str)
    ensures
        next@ == dots_after(dots@),
{
    proof {
        reveal_strlit(".");
        reveal_strlit("..");
        reveal_strlit("...");
        reveal_strlit("");
    }
    let n = dots.unicode_len();
    let mut all_dots = n >= 1 && n <= 3;
    let mut i: usize = 0;
    while i < n && all_dots
        invariant
            i <= n,
            n == dots@.len(),
            all_dots ==> 1 <= n <= 3 && forall|j: int| 0 <= j < i ==> dots@[j] == '.',
            !all_dots ==> !(1 <= n <= 3) || exists|j: int| 0 <= j < n && dots@[j] != '.',
        decreases n - i,
    {
        if dots.get_char(i) != '.' {
            all_dots = false;
        }
        i = i + 1;
    }
    if all_dots && n == 1 {
        assert(dots@ =~= seq!['.']);
        assert(".."@ =~= seq!['.', '.']);
        ".."
    } else if all_dots && n == 2 {
        assert(dots@ =~= seq!['.', '.']);
        assert("..."@ =~= seq!['.', '.', '.']);
        "..."
    } else if all_dots && n == 3 {
        assert(dots@ =~= seq!['.', '.', '.']);
        assert(""@ =~= Seq::<char>::empty());
        ""
    } else {
        assert("."@ =~= seq!['.']);
        "."
    }
}

/// Decides what the page that watches the import shows. `job_exists` says
/// whether a job is admitted, and `finished` is the result that was taken
/// out of the slot, if the job had finished.
pub fn import_status<R>(
    job_exists: bool,
    finished: Option<R>,
    dots: &str,
    progress: Option<(usize, usize)>,
) -> (status: ImportStatus<R>)
    ensures
        !job_exists ==> status is NoJob,
        job_exists ==> match finished {
            Some(result) => status == ImportStatus::Finished(result),
            None => status matches ImportStatus::Working { dots: d, progress: p } && d@
                == dots_after(dots@) && p == progress,
        },
{
    if !job_exists {
        return ImportStatus::NoJob;
    }
    match finished {
        Some(result) => ImportStatus::Finished(result),
        None => ImportStatus::Working { dots: next_dots(dots), progress },
    }
}

/// The line that tells how far the job has come.
pub open spec fn progress_text(done: usize, total: usize) -> Seq<char> {
    "So far, added "@ + decimal(done as nat) + (if done != 1 {
        " students"@
    } else {
        " student"@
    }) + " out of "@ + decimal(total as nat) + " to the database."@
}

/// The line that tells how far the job has come.
pub fn progress_line(done: usize, total: usize) -> (line: String)
    ensures
        line@ == progress_text(done, total),
{
    let mut line = String::from_str("So far, added ");
    let done_text = decimal_text(done);
    line.append(done_text.as_str());
    if done != 1 {
        line.append(" students");
    } else {
        line.append(" student");
    }
    line.append(" out of ");
    let total_text = decimal_text(total);
    line.append(total_text.as_str());
    line.append(" to the database.");
    line
}

/// The default passwords of the students and the password of the archive
/// that holds them: the last of `passwords` is for the archive. There is
/// nothing to split where `passwords` is empty.
pub fn split_passwords(passwords: Vec<String>) -> (split: Option<(Vec<String>, String)>)
    ensures
        split is Some <==> passwords@.len() > 0,
        split matches Some((students, archive)) ==> students@ == passwords@.drop_last()
            && archive == passwords@.last(),
{
    let mut students = passwords;
    match students.pop() {
        Some(archive) => Some((students, archive)),
        None => None,
    }
}

/// Draws a default password for each of `count` students and one more for
/// the archive. It fails as soon as one password cannot be drawn: so it
/// never fails where there is a word of every length of the range, and
/// always where a range is empty or no word has a length of the range.
pub fn generate_passwords(
    config: &AuthConfig,
    words: &HashMap<usize, Vec<String>>,
    count: usize,
) -> (drawn: DenimResult<(Vec<String>, String)>)
    ensures
        config.can_draw() && config.has_words_of_every_length(words@) ==> drawn is Ok,
        drawn is Ok ==> config.can_draw() && config.has_word_in_range(words@),
        drawn matches Err(e) ==> e == DenimError::GeneratePassword,
        drawn matches Ok((students, archive)) ==> {
            &&& students@.len() == count
            &&& config.can_give(words@, archive@)
            &&& forall|i: int| 0 <= i < count ==> config.can_give(words@, (#[trigger] students@[i])@)
        },
{
    let mut students: Vec<String> = Vec::new();
    let mut i: usize = 0;
    while i < count
        invariant
            i <= count,
            students@.len() == i,
            forall|j: int| 0 <= j < i ==> config.can_give(words@, (#[trigger] students@[j])@),
        decreases count - i,
    {
        match config.generate(words) {
            Ok(password) => {
                students.push(password);
            },
            Err(e) => {
                return Err(e);
            },
        }
        i = i + 1;
    }
    match config.generate(words) {
        Ok(archive) => Ok((students, archive)),
        Err(e) => Err(e),
    }
}

/// `sorted` with `student` put in behind every student whose e-mail address
/// comes before its own or is the same.
pub open spec fn insert_by_email(
    sorted: Seq<DraftIndividualStudent>,
    student: DraftIndividualStudent,
) -> Seq<DraftIndividualStudent>
    decreases sorted.len(),
{
    if sorted.len() == 0 {
        seq![student]
    } else if text_le(sorted.last().email@, student.email@) {
        sorted.push(student)
    } else {
        insert_by_email(sorted.drop_last(), student).push(sorted.last())
    }
}

/// `students` in the order of their e-mail addresses; students with the
/// same address stay in the order in which they came.
pub open spec fn sorted_by_email(students: Seq<DraftIndividualStudent>) -> Seq<
    DraftIndividualStudent,
>
    decreases students.len(),
{
    if students.len() == 0 {
        Seq::empty()
    } else {
        insert_by_email(sorted_by_email(students.drop_last()), students.last())
    }
}

/// Whether the e-mail addresses of `students` go up from each student to
/// the next.
pub open spec fn in_email_order(students: Seq<DraftIndividualStudent>) -> bool {
    forall|i: int, j: int|
        0 <= i <= j < students.len() ==> text_le(
            (#[trigger] students[i]).email@,
            (#[trigger] students[j]).email@,
        )
}

/// Putting a student into students that are in order leaves them in order,
/// and adds that student and no other.
pub proof fn lemma_insert_by_email(
    sorted: Seq<DraftIndividualStudent>,
    student: DraftIndividualStudent,
)
    requires
        in_email_order(sorted),
    ensures
        in_email_order(insert_by_email(sorted, student)),
        insert_by_email(sorted, student).len() == sorted.len() + 1,
        insert_by_email(sorted, student).to_multiset() == sorted.to_multiset().insert(student),
    decreases sorted.len(),
{
    broadcast use vstd::seq_lib::group_to_multiset_ensures;

    let after = insert_by_email(sorted, student);
    if sorted.len() == 0 {
        assert(after =~= sorted.push(student));
        lemma_bytes_le_total(
            vstd::utf8::encode_utf8(student.email@),
            vstd::utf8::encode_utf8(student.email@),
        );
    } else if text_le(sorted.last().email@, student.email@) {
        assert forall|i: int, j: int| 0 <= i <= j < after.len() implies text_le(
            (#[trigger] after[i]).email@,
            (#[trigger] after[j]).email@,
        ) by {
            if j == sorted.len() {
                if i < j {
                    assert(text_le(sorted[i].email@, sorted[sorted.len() - 1].email@));
                    lemma_bytes_le_transitive(
                        vstd::utf8::encode_utf8(sorted[i].email@),
                        vstd::utf8::encode_utf8(sorted.last().email@),
                        vstd::utf8::encode_utf8(student.email@),
                    );
                } else {
                    lemma_bytes_le_total(
                        vstd::utf8::encode_utf8(student.email@),
                        vstd::utf8::encode_utf8(student.email@),
                    );
                }
            } else {
                assert(after[i] == sorted[i] && after[j] == sorted[j]);
            }
        }
    } else {
        let front = sorted.drop_last();
        let last = sorted.last();
        assert forall|i: int, j: int| 0 <= i <= j < front.len() implies text_le(
            (#[trigger] front[i]).email@,
            (#[trigger] front[j]).email@,
        ) by {
            assert(front[i] == sorted[i] && front[j] == sorted[j]);
        }
        lemma_insert_by_email(front, student);
        let inner = insert_by_email(front, student);
        lemma_bytes_le_total(
            vstd::utf8::encode_utf8(last.email@),
            vstd::utf8::encode_utf8(student.email@),
        );
        assert forall|i: int, j: int| 0 <= i <= j < after.len() implies text_le(
            (#[trigger] after[i]).email@,
            (#[trigger] after[j]).email@,
        ) by {
            if j == inner.len() {
                if i < j {
                    // inner[i] is the student or one of front
                    assert(inner.to_multiset().count(inner[i]) > 0);
                    if inner[i] == student {
                    } else {
                        assert(front.to_multiset().count(inner[i]) > 0);
                        let k = choose|k: int| 0 <= k < front.len() && front[k] == inner[i];
                        assert(sorted[k] == front[k]);
                        assert(text_le(sorted[k].email@, sorted[sorted.len() - 1].email@));
                    }
                } else {
                    lemma_bytes_le_total(
                        vstd::utf8::encode_utf8(last.email@),
                        vstd::utf8::encode_utf8(last.email@),
                    );
                }
            } else {
                assert(after[i] == inner[i] && after[j] == inner[j]);
            }
        }
        assert(front.push(last) =~= sorted);
    }
}

/// Sorting by e-mail address brings the students into the order of their
/// addresses and neither loses nor invents one.
pub proof fn sorting_keeps_the_students(students: Seq<DraftIndividualStudent>)
    ensures
        in_email_order(sorted_by_email(students)),
        sorted_by_email(students).len() == students.len(),
        sorted_by_email(students).to_multiset() == students.to_multiset(),
    decreases students.len(),
{
    broadcast use vstd::seq_lib::group_to_multiset_ensures;

    if students.len() > 0 {
        sorting_keeps_the_students(students.drop_last());
        lemma_insert_by_email(sorted_by_email(students.drop_last()), students.last());
        assert(students.drop_last().push(students.last()) =~= students);
    } else {
        assert(sorted_by_email(students) =~= students);
    }
}

/// Brings `students` into the order of their e-mail addresses; students
/// with the same address stay in the order in which they came.
pub fn sort_by_email(students: Vec<DraftIndividualStudent>) -> (sorted: Vec<DraftIndividualStudent>)
    ensures
        sorted@ == sorted_by_email(students@),
{
    let mut rest = students;
    let mut stack: Vec<DraftIndividualStudent> = Vec::new();
    // Take the students off the end, so that they can be put in from the
    // front.
    while rest.len() > 0
        invariant
            students@ == rest@ + stack@.reverse(),
        decreases rest@.len(),
    {
        let ghost before = rest@;
        let ghost stacked = stack@;
        match rest.pop() {
            Some(student) => {
                stack.push(student);
                assert(stack@.reverse() =~= seq![student] + stacked.reverse());
                assert(before =~= rest@ + seq![student]);
                assert(rest@ + stack@.reverse() =~= before + stacked.reverse());
            },
            None => {},
        }
    }
    assert(students@ =~= stack@.reverse());
    let mut sorted: Vec<DraftIndividualStudent> = Vec::new();
    let ghost mut done: Seq<DraftIndividualStudent> = Seq::empty();
    while stack.len() > 0
        invariant
            students@ == done + stack@.reverse(),
            sorted@ == sorted_by_email(done),
        decreases stack@.len(),
    {
        let ghost stacked = stack@;
        match stack.pop() {
            Some(student) => {
                let mut at = sorted.len();
                proof {
                    assert(sorted@.take(at as int) =~= sorted@);
                    assert(insert_by_email(sorted@, student) + sorted@.skip(at as int)
                        =~= insert_by_email(sorted@, student));
                }
                while at > 0 && !text_at_most(sorted[at - 1].email.as_str(), student.email.as_str())
                    invariant
                        at <= sorted@.len(),
                        insert_by_email(sorted@, student) == insert_by_email(
                            sorted@.take(at as int),
                            student,
                        ) + sorted@.skip(at as int),
                    decreases at,
                {
                    proof {
                        let head = sorted@.take(at as int);
                        assert(head.last() == sorted@[at - 1]);
                        assert(head.drop_last() =~= sorted@.take(at - 1));
                        assert(insert_by_email(head, student) == insert_by_email(
                            head.drop_last(),
                            student,
                        ).push(head.last()));
                        assert(insert_by_email(head.drop_last(), student).push(head.last())
                            + sorted@.skip(at as int) =~= insert_by_email(
                            sorted@.take(at - 1),
                            student,
                        ) + sorted@.skip(at - 1));
                    }
                    at = at - 1;
                }
                proof {
                    let head = sorted@.take(at as int);
                    if at > 0 {
                        assert(head.last() == sorted@[at - 1]);
                    }
                    assert(insert_by_email(head, student) =~= head.push(student));
                    assert(head.push(student) + sorted@.skip(at as int) =~= sorted@.insert(
                        at as int,
                        student,
                    ));
                    assert(stacked.reverse() =~= seq![student] + stack@.reverse());
                    assert((done.push(student)).drop_last() =~= done);
                    assert(done + stacked.reverse() =~= done.push(student) + stack@.reverse());
                    done = done.push(student);
                }
                sorted.insert(at, student);
            },
            None => {},
        }
    }
    proof {
        assert(students@ =~= done);
    }
    sorted
}

/// One event of an uploaded file, as it stands there.
#[derive(Clone, Debug)]
pub struct DraftCsvEvent {
    pub name: String,
    pub datetime: String,
    pub location: Option<String>,
    pub extra_info: Option<String>,
}

/// One event of an uploaded file, with its date read.
#[derive(Clone, Debug)]
pub struct DraftEvent {
    pub name: String,
    pub datetime: CivilDateTime,
    pub location: Option<String>,
    pub extra_info: Option<String>,
}

/// Reads the date of one event of a file. A date that does not fit the
/// pattern is refused, and comes back in the failure.
pub fn draft_event(record: DraftCsvEvent) -> (draft: DenimResult<DraftEvent>)
    ensures
        match strptime_parsed(DatePattern::File.spec_format(), record.datetime@) {
            Some(datetime) => draft == Ok::<DraftEvent, DenimError>(
                DraftEvent {
                    name: record.name,
                    datetime,
                    location: record.location,
                    extra_info: record.extra_info,
                },
            ),
            None => draft matches Err(DenimError::ParseTime { original, .. }) && original
                == record.datetime,
        },
{
    match parse_civil(DatePattern::File, record.datetime) {
        Ok(datetime) => Ok(
            DraftEvent {
                name: record.name,
                datetime,
                location: record.location,
                extra_info: record.extra_info,
            },
        ),
        Err(e) => Err(e),
    }
}

/// Whether a record of a file is in order: it could be read, and its date
/// fits the pattern.
pub open spec fn record_is_good(record: Result<DraftCsvEvent, String>) -> bool {
    record matches Ok(r) && strptime_parsed(DatePattern::File.spec_format(), r.datetime@) is Some
}

/// The event that a record in order stands for.
pub open spec fn draft_of(record: Result<DraftCsvEvent, String>) -> DraftEvent {
    let r = record->Ok_0;
    DraftEvent {
        name: r.name,
        datetime: strptime_parsed(DatePattern::File.spec_format(), r.datetime@)->0,
        location: r.location,
        extra_info: r.extra_info,
    }
}

/// Whether `failure` is the failure of the record `record`, which is not in
/// order: the text of why it could not be read, or its date as it stands in
/// the file.
pub open spec fn failure_of(record: Result<DraftCsvEvent, String>, failure: DenimError) -> bool {
    match record {
        Ok(r) => failure matches DenimError::ParseTime { original, .. } && original@ == r.datetime@,
        Err(message) => failure matches DenimError::Csv { source } && source@ == message@,
    }
}

/// The events of the first `upto` of `records` that are in order.
pub open spec fn good_of(records: Seq<Result<DraftCsvEvent, String>>, upto: int) -> Seq<
    Result<DraftCsvEvent, String>,
>
    decreases upto,
{
    if upto <= 0 {
        Seq::empty()
    } else if record_is_good(records[upto - 1]) {
        good_of(records, upto - 1).push(records[upto - 1])
    } else {
        good_of(records, upto - 1)
    }
}

/// The first `upto` of `records` that are not in order.
pub open spec fn bad_of(records: Seq<Result<DraftCsvEvent, String>>, upto: int) -> Seq<
    Result<DraftCsvEvent, String>,
>
    decreases upto,
{
    if upto <= 0 {
        Seq::empty()
    } else if record_is_good(records[upto - 1]) {
        bad_of(records, upto - 1)
    } else {
        bad_of(records, upto - 1).push(records[upto - 1])
    }
}

/// Whether `events` are the events that `good` stand for, one for one.
pub open spec fn events_match(good: Seq<Result<DraftCsvEvent, String>>, events: Seq<DraftEvent>) -> bool {
    &&& events.len() == good.len()
    &&& forall|i: int|
        0 <= i < good.len() ==> {
            &&& (#[trigger] events[i]).name@ == draft_of(good[i]).name@
            &&& events[i].datetime == draft_of(good[i]).datetime
            &&& text_of(events[i].location) == text_of(draft_of(good[i]).location)
            &&& text_of(events[i].extra_info) == text_of(draft_of(good[i]).extra_info)
        }
}

/// Whether `failures` are the failures of `bad`, one for one.
pub open spec fn failures_match(bad: Seq<Result<DraftCsvEvent, String>>, failures: Seq<DenimError>) -> bool {
    &&& failures.len() == bad.len()
    &&& forall|i: int| 0 <= i < bad.len() ==> failure_of(bad[i], #[trigger] failures[i])
}

/// The text that a field holds, if it holds one.
pub open spec fn text_of(field: Option<String>) -> Option<Seq<char>> {
    match field {
        Some(t) => Some(t@),
        None => None,
    }
}

fn copy_field(field: &Option<String>) -> (copy: Option<String>)
    ensures
        text_of(copy) == text_of(*field),
{
    match field {
        Some(t) => Some(t.clone()),
        None => None,
    }
}

/// Reads the events of a file. Each record is either an event as it stands
/// in the file or the text of why it could not be read. If every record is
/// in order the events come back, in the order of the file; otherwise the
/// failures do, one for each record that is not in order, in the order of
/// the file.
pub fn read_events(records: &Vec<Result<DraftCsvEvent, String>>) -> (read: Result<
    Vec<DraftEvent>,
    Vec<DenimError>,
>)
    ensures
        read is Ok <==> bad_of(records@, records@.len() as int).len() == 0,
        read matches Ok(events) ==> events_match(
            good_of(records@, records@.len() as int),
            events@,
        ) && events@.len() == records@.len(),
        read matches Err(failures) ==> failures_match(
            bad_of(records@, records@.len() as int),
            failures@,
        ),
{
    let mut events: Vec<DraftEvent> = Vec::new();
    let mut failures: Vec<DenimError> = Vec::new();
    let mut i: usize = 0;
    while i < records.len()
        invariant
            i <= records@.len(),
            events_match(good_of(records@, i as int), events@),
            failures_match(bad_of(records@, i as int), failures@),
            events@.len() + failures@.len() == i,
        decreases records@.len() - i,
    {
        let ghost good = good_of(records@, i as int);
        let ghost bad = bad_of(records@, i as int);
        let ghost old_events = events@;
        let ghost old_failures = failures@;
        match &records[i] {
            Ok(r) => {
                let copy = DraftCsvEvent {
                    name: r.name.clone(),
                    datetime: r.datetime.clone(),
                    location: copy_field(&r.location),
                    extra_info: copy_field(&r.extra_info),
                };
                match draft_event(copy) {
                    Ok(event) => {
                        events.push(event);
                        proof {
                            let next = good.push(records@[i as int]);
                            assert forall|k: int| 0 <= k < next.len() implies {
                                &&& (#[trigger] events@[k]).name@ == draft_of(next[k]).name@
                                &&& events@[k].datetime == draft_of(next[k]).datetime
                                &&& text_of(events@[k].location) == text_of(
                                    draft_of(next[k]).location,
                                )
                                &&& text_of(events@[k].extra_info) == text_of(
                                    draft_of(next[k]).extra_info,
                                )
                            } by {
                                if k < good.len() {
                                    assert(events@[k] == old_events[k]);
                                    assert(next[k] == good[k]);
                                }
                            }
                        }
                    },
                    Err(e) => {
                        failures.push(e);
                        proof {
                            let next = bad.push(records@[i as int]);
                            assert forall|k: int| 0 <= k < next.len() implies failure_of(
                                next[k],
                                #[trigger] failures@[k],
                            ) by {
                                if k < bad.len() {
                                    assert(failures@[k] == old_failures[k]);
                                    assert(next[k] == bad[k]);
                                }
                            }
                        }
                    },
                }
            },
            Err(message) => {
                failures.push(DenimError::Csv { source: message.clone() });
                proof {
                    let next = bad.push(records@[i as int]);
                    assert forall|k: int| 0 <= k < next.len() implies failure_of(
                        next[k],
                        #[trigger] failures@[k],
                    ) by {
                        if k < bad.len() {
                            assert(failures@[k] == old_failures[k]);
                            assert(next[k] == bad[k]);
                        }
                    }
                }
            },
        }
        i = i + 1;
    }
    if failures.len() > 0 {
        Err(failures)
    } else {
        Ok(events)
    }
}

/// How a batch that writes to the database ends.
#[derive(Debug)]
pub enum BatchEnd {
    /// What was added is kept. `announce` is what to tell the subscribers,
    /// if anything was added; `failures` are the items that were left out
    /// because they were themselves at fault.
    Commit { announce: Option<SseEvent>, failures: Vec<ImportFailure> },
    /// Nothing is kept: the store failed, for this reason.
    Rollback { failure: String },
}

/// How a batch ends in which `added` items were added, `failures` were left
/// out because they were themselves at fault, and the store failed for
/// `store_failure`, if it did. Only a failure of the store undoes the batch:
/// an item that is at fault never does.
pub open spec fn batch_end(
    added: usize,
    failures: Vec<ImportFailure>,
    store_failure: Option<String>,
    announce: SseEvent,
) -> BatchEnd {
    match store_failure {
        Some(failure) => BatchEnd::Rollback { failure },
        None => BatchEnd::Commit {
            announce: if added > 0 {
                Some(announce)
            } else {
                None
            },
            failures,
        },
    }
}

/// What a batch has come to so far: how many items were added, which were
/// left out because they were themselves at fault, and why the store
/// failed, if it did.
#[derive(Debug)]
pub struct BatchTally {
    pub added: usize,
    pub failures: Vec<ImportFailure>,
    pub store_failure: Option<String>,
}

impl BatchTally {
    /// The tally of a batch of which nothing was tried yet.
    pub fn new() -> (tally: Self)
        ensures
            tally.added == 0,
            tally.failures@.len() == 0,
            tally.store_failure is None,
    {
        BatchTally { added: 0, failures: Vec::new(), store_failure: None }
    }

    /// Whether the batch has stopped because the store failed.
    pub fn is_stopped(&self) -> (stopped: bool)
        ensures
            stopped == self.store_failure is Some,
    {
        self.store_failure.is_some()
    }

    /// How many items are added after one more, in a batch that has not
    /// stopped.
    pub open spec fn added_after(self, outcome: ItemOutcome) -> usize {
        if outcome is Added && self.added < usize::MAX {
            (self.added + 1) as usize
        } else {
            self.added
        }
    }

    /// The items left out after one more, called `name`, in a batch that has
    /// not stopped.
    pub open spec fn failures_after(self, name: String, outcome: ItemOutcome) -> Seq<
        ImportFailure,
    > {
        match outcome {
            ItemOutcome::BadRow(message) => self.failures@.push(
                ImportFailure { email: name, message },
            ),
            _ => self.failures@,
        }
    }

    /// Why the store failed at one more item, if it did.
    pub open spec fn stopped_by(outcome: ItemOutcome) -> Option<String> {
        match outcome {
            ItemOutcome::StoreFailed(reason) => Some(reason),
            _ => None,
        }
    }

    /// Takes note of how adding the item called `name` ended. An item that is
    /// at fault is kept for the report, under its name; a failure of the
    /// store stops the batch, and nothing is noted after it.
    pub fn note(&mut self, name: String, outcome: ItemOutcome)
        ensures
            old(self).store_failure is Some ==> *final(self) == *old(self),
            old(self).store_failure is None ==> final(self).added == old(self).added_after(outcome),
            old(self).store_failure is None ==> final(self).failures@ == old(self).failures_after(
                name,
                outcome,
            ),
            old(self).store_failure is None ==> final(self).store_failure == Self::stopped_by(
                outcome,
            ),
    {
        if self.store_failure.is_some() {
            return;
        }
        match outcome {
            ItemOutcome::Added => {
                if self.added < usize::MAX {
                    self.added = self.added + 1;
                }
            },
            ItemOutcome::BadRow(message) => {
                self.failures.push(ImportFailure { email: name, message });
            },
            ItemOutcome::StoreFailed(reason) => {
                self.store_failure = Some(reason);
            },
        }
    }
}

/// Decides how the import of events ends.
pub fn end_of_events_import(tally: BatchTally) -> (end: BatchEnd)
    ensures
        end == batch_end(tally.added, tally.failures, tally.store_failure, SseEvent::CrudEvent),
{
    match tally.store_failure {
        Some(failure) => BatchEnd::Rollback { failure },
        None => BatchEnd::Commit {
            announce: if tally.added > 0 {
                Some(SseEvent::CrudEvent)
            } else {
                None
            },
            failures: tally.failures,
        },
    }
}

impl ImportReport {
    /// Decides how the import of students ends.
    pub fn end(self) -> (end: BatchEnd)
        ensures
            end == batch_end(self.added, self.failures, self.store_failure, SseEvent::CrudPerson),
    {
        match self.store_failure {
            Some(failure) => BatchEnd::Rollback { failure },
            None => BatchEnd::Commit {
                announce: if self.added > 0 {
                    Some(SseEvent::CrudPerson)
                } else {
                    None
                },
                failures: self.failures,
            },
        }
    }
}

/// A batch in which the store did not fail is kept, however many of its
/// items were at fault; and what it announces is that something was added,
/// exactly if something was.
pub proof fn bad_rows_do_not_abort(added: usize, failures: Vec<ImportFailure>, announce: SseEvent)
    ensures
        batch_end(added, failures, None, announce) is Commit,
        batch_end(added, failures, None, announce)->Commit_failures == failures,
        batch_end(added, failures, None, announce)->announce is Some <==> added > 0,
{
}

/// Why `zip` could not write an archive. Nothing of what it holds is
/// visible here.
#[verifier::external_type_specification]
#[verifier::external_body]
pub struct ExZipError(zip::result::ZipError);

/// How strongly the file of an archive is encrypted: with AES and a key of
/// this many bits.
#[derive(Clone, Copy, Debug, PartialEq, Eq, Structural)]
pub enum ArchiveCipher {
    Aes128,
    Aes192,
    Aes256,
}

/// `zip::ZipWriter`: `new` on a buffer in memory, `start_file` with
/// `zip::write::SimpleFileOptions::with_aes_encryption` in the mode that
/// `cipher` names, the contents written with `write_all`, and `finish`.
/// Trusted, and nothing is promised of the archive: the encryption salts it
/// with random bytes.
#[verifier::external_body]
fn zip_encrypted(file_name: &str, contents: &[u8], cipher: ArchiveCipher, password: &str) -> (archive:
    Result<Vec<u8>, zip::result::ZipError>) {
    let mut archive = Vec::new();
    let mut zip = zip::ZipWriter::new(std::io::Cursor::new(&mut archive));
    let mode = match cipher {
        ArchiveCipher::Aes128 => zip::AesMode::Aes128,
        ArchiveCipher::Aes192 => zip::AesMode::Aes192,
        ArchiveCipher::Aes256 => zip::AesMode::Aes256,
    };
    let options = zip::write::SimpleFileOptions::default().with_aes_encryption(mode, password);
    zip.start_file(file_name, options)?;
    std::io::Write::write_all(&mut zip, contents)?;
    zip.finish()?;
    Ok(archive)
}

/// The `Display` of `zip::result::ZipError`: the text of the failure.
/// Trusted, and nothing is promised of the text.
#[verifier::external_body]
fn zip_error_text(error: &zip::result::ZipError) -> (text: String) {
    error.to_string()
}

impl ImportReport {
    /// What becomes of what the writer of archives gave: the archive, or the
    /// failure to write one, with the text of why.
    pub fn archive_outcome(written: Result<Vec<u8>, String>) -> (archive: DenimResult<Vec<u8>>)
        ensures
            archive == match written {
                Ok(bytes) => Ok::<Vec<u8>, DenimError>(bytes),
                Err(source) => Err(DenimError::Zip { source }),
            },
    {
        match written {
            Ok(bytes) => Ok(bytes),
            Err(source) => Err(DenimError::Zip { source }),
        }
    }

    /// What is put into the archive of passwords: the list of passwords, as
    /// its bytes, under the name `passwords.csv`, encrypted with a key of 256
    /// bits.
    pub fn archive_entry(&self) -> (entry: (&'static str, &[u8], ArchiveCipher))
        ensures
            entry.0@ == "passwords.csv"@,
            entry.1@ == vstd::utf8::encode_utf8(self.output_csv@),
            entry.2 == ArchiveCipher::Aes256,
    {
        ("passwords.csv", self.output_csv.as_str().as_bytes(), ArchiveCipher::Aes256)
    }

    /// An archive that holds what `archive_entry` gives, encrypted with
    /// `password`. Whether one can be written, and its bytes, are up to the
    /// writer of archives, which salts the encryption with random bytes;
    /// `archive_outcome` says what becomes of what it gives.
    pub fn passwords_archive(&self, password: &str) -> (archive: DenimResult<Vec<u8>>)
        ensures
            archive matches Err(e) ==> e is Zip,
    {
        let (file_name, contents, cipher) = self.archive_entry();
        match zip_encrypted(file_name, contents, cipher, password) {
            Ok(bytes) => Self::archive_outcome(Ok(bytes)),
            Err(e) => Self::archive_outcome(Err(zip_error_text(&e))),
        }
    }
}

/// Why `base64` could not read a text. Nothing of what it holds is visible
/// here.
#[verifier::external_type_specification]
#[verifier::external_body]
pub struct ExBase64DecodeError(base64::DecodeError);

/// The bytes that `text` stands for in the alphabet of base 64 that is safe
/// in addresses, with padding; nothing where `text` is no such text.
pub uninterp spec fn base64_url_decoded(text: Seq<char>) -> Option<Seq<u8>>;

/// `base64::Engine::decode` of `base64::prelude::BASE64_URL_SAFE`. Trusted:
/// what it reads is the named function of the text.
#[verifier::external_body]
fn base64_decode(text: &str) -> (bytes: Result<Vec<u8>, base64::DecodeError>)
    ensures
        bytes matches Ok(b) ==> base64_url_decoded(text@) == Some(b@),
        bytes is Err ==> base64_url_decoded(text@) is None,
{
    base64::Engine::decode(&base64::prelude::BASE64_URL_SAFE, text)
}

/// The `Display` of `base64::DecodeError`: the text of the failure. Trusted,
/// and nothing is promised of the text.
#[verifier::external_body]
fn base64_error_text(error: &base64::DecodeError) -> (text: String) {
    error.to_string()
}

impl FullEventsForm {
    /// The member of staff that the form names: none if the field is empty,
    /// and the identifier that stands there otherwise.
    pub fn staff_member(&self) -> (id: DenimResult<Option<u128>>)
        ensures
            self.associated_staff_member@.len() == 0 ==> id == Ok::<Option<u128>, DenimError>(None),
            self.associated_staff_member@.len() > 0 ==> match uuid_parsed(
                self.associated_staff_member@,
            ) {
                Some(v) => id == Ok::<Option<u128>, DenimError>(Some(v)),
                None => id matches Err(DenimError::ParseUuid { original, .. }) && original@
                    == self.associated_staff_member@,
            },
    {
        parse_optional_id(self.associated_staff_member.clone())
    }

    /// The serialised events that the form carries.
    pub fn events_bytes(&self) -> (bytes: DenimResult<Vec<u8>>)
        ensures
            match base64_url_decoded(self.b64events@) {
                Some(b) => bytes matches Ok(read) && read@ == b,
                None => bytes matches Err(e) && e is B64,
            },
    {
        match base64_decode(self.b64events.as_str()) {
            Ok(read) => Ok(read),
            Err(e) => Err(DenimError::B64 { source: base64_error_text(&e) }),
        }
    }
}

} // verus!
