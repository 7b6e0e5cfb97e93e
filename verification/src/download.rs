//! What came of downloading the images of a profile.
//!
//! Fetching an image and writing it to its destination is the caller's
//! work, image by image and in any order. What is decided here is the
//! result of the whole: it fails where one download failed, and says which.

use vstd::prelude::*;

verus! {

/// The step at which the download of an image failed.
#[derive(Clone, Copy, Debug, PartialEq, Eq)]
pub enum Step {
    /// The destination could not be opened for writing.
    OpenDestination,
    /// The image could not be fetched to its end.
    Fetch,
}

/// The download of one image: which image, and where it failed if it did.
#[derive(Debug, PartialEq)]
pub struct Attempt {
    pub url: String,
    pub failed_at: Option<Step>,
}

/// A download that failed: which image, and at which step.
#[derive(Debug, PartialEq)]
pub struct FailedDownload {
    pub url: String,
    pub step: Step,
}

/// An [`Attempt`] as specifications see it.
pub struct AttemptView {
    pub url: Seq<char>,
    pub failed_at: Option<Step>,
}

/// A [`FailedDownload`] as specifications see it.
pub struct FailedDownloadView {
    pub url: Seq<char>,
    pub step: Step,
}

impl View for Attempt {
    type V = AttemptView;

    open spec fn view(&self) -> AttemptView {
        AttemptView { url: self.url@, failed_at: self.failed_at }
    }
}

impl View for FailedDownload {
    type V = FailedDownloadView;

    open spec fn view(&self) -> FailedDownloadView {
        FailedDownloadView { url: self.url@, step: self.step }
    }
}

/// The downloads among `attempts` that failed, in the order of `attempts`.
pub open spec fn failures_of(attempts: Seq<AttemptView>) -> Seq<FailedDownloadView>
    decreases attempts.len(),
{
    if attempts.len() == 0 {
        Seq::empty()
    } else {
        let earlier = failures_of(attempts.drop_last());
        match attempts.last().failed_at {
            Some(step) => earlier.push(FailedDownloadView { url: attempts.last().url, step }),
            None => earlier,
        }
    }
}

/// The result of the whole: nothing to report where every download was
/// completed, and else the downloads that failed.
pub open spec fn result_of(attempts: Seq<AttemptView>) -> Result<(), Seq<FailedDownloadView>> {
    if failures_of(attempts).len() == 0 {
        Ok(())
    } else {
        Err(failures_of(attempts))
    }
}

/// No failure is dropped: a download that failed is among the failures,
/// with its address and its step.
pub proof fn lemma_failure_is_reported(attempts: Seq<AttemptView>, i: int)
    requires
        0 <= i < attempts.len(),
        attempts[i].failed_at is Some,
    ensures
        failures_of(attempts).contains(
            FailedDownloadView { url: attempts[i].url, step: attempts[i].failed_at.unwrap() },
        ),
    decreases attempts.len(),
{
    let reported = FailedDownloadView {
        url: attempts[i].url,
        step: attempts[i].failed_at.unwrap(),
    };
    let all = failures_of(attempts);
    if i == attempts.len() - 1 {
        assert(all.last() == reported);
    } else {
        lemma_failure_is_reported(attempts.drop_last(), i);
        let earlier = failures_of(attempts.drop_last());
        let place = choose|place: int| 0 <= place < earlier.len() && earlier[place] == reported;
        assert(all[place] == reported);
    }
}

/// No failure is made up: each of the failures is a download that failed.
pub proof fn lemma_failure_was_attempted(attempts: Seq<AttemptView>, failure: FailedDownloadView)
    requires
        failures_of(attempts).contains(failure),
    ensures
        exists|i: int|
            0 <= i < attempts.len() && (#[trigger] attempts[i]).url == failure.url
                && attempts[i].failed_at == Some(failure.step),
    decreases attempts.len(),
{
    if attempts.len() > 0 {
        let earlier = failures_of(attempts.drop_last());
        let last = attempts.len() - 1;
        if earlier.contains(failure) {
            lemma_failure_was_attempted(attempts.drop_last(), failure);
            let i = choose|i: int|
                0 <= i < attempts.drop_last().len() && (#[trigger] attempts.drop_last()[i]).url
                    == failure.url && attempts.drop_last()[i].failed_at == Some(failure.step);
            assert(attempts[i] == attempts.drop_last()[i]);
        } else {
            let place = choose|place: int|
                0 <= place < failures_of(attempts).len() && failures_of(attempts)[place] == failure;
            assert(place == earlier.len());
            assert(attempts[last].url == failure.url);
        }
    }
}

/// The whole succeeds exactly where every download was completed.
pub proof fn lemma_success_means_all_completed(attempts: Seq<AttemptView>)
    ensures
        result_of(attempts) is Ok <==> forall|i: int|
            0 <= i < attempts.len() ==> (#[trigger] attempts[i]).failed_at is None,
    decreases attempts.len(),
{
    if attempts.len() > 0 {
        let earlier = attempts.drop_last();
        lemma_success_means_all_completed(earlier);
        if result_of(attempts) is Ok {
            assert forall|i: int| 0 <= i < attempts.len() implies (#[trigger] attempts[i]).failed_at
                is None by {
                if i < attempts.len() - 1 {
                    assert(earlier[i] == attempts[i]);
                }
            }
        } else {
            if attempts.last().failed_at is None {
                let i = choose|i: int|
                    0 <= i < earlier.len() && !((#[trigger] earlier[i]).failed_at is None);
                assert(attempts[i] == earlier[i]);
            }
        }
    }
}

/// The result of downloading all images, from how each download ended.
///
/// It is a failure where one download failed, and names every download
/// that did, in the order of `attempts`.
pub fn download_result(attempts: &Vec<Attempt>) -> (result: Result<(), Vec<FailedDownload>>)
    ensures
        match result {
            Ok(_) => result_of(attempts@.map_values(|attempt: Attempt| attempt@)) is Ok,
            Err(failures) => result_of(attempts@.map_values(|attempt: Attempt| attempt@)) == Err::<
                (),
                Seq<FailedDownloadView>,
            >(failures@.map_values(|failure: FailedDownload| failure@)),
        },
{
    let ghost all = attempts@.map_values(|attempt: Attempt| attempt@);
    let mut failures: Vec<FailedDownload> = Vec::new();
    let mut i: usize = 0;
    assert(all.take(0) =~= Seq::empty());
    while i < attempts.len()
        invariant
            i <= attempts.len(),
            all == attempts@.map_values(|attempt: Attempt| attempt@),
            failures@.map_values(|failure: FailedDownload| failure@) == failures_of(
                all.take(i as int),
            ),
        decreases attempts.len() - i,
    {
        let ghost before = failures@.map_values(|failure: FailedDownload| failure@);
        let attempt = &attempts[i];
        proof {
            assert(all.take(i + 1).drop_last() =~= all.take(i as int));
            assert(all.take(i + 1).last() == attempt@);
        }
        match attempt.failed_at {
            Some(step) => {
                let failure = FailedDownload { url: attempt.url.clone(), step };
                failures.push(failure);
                assert(failures@.map_values(|failure: FailedDownload| failure@) =~= before.push(
                    failure@,
                ));
            },
            None => {},
        }
        i += 1;
    }
    assert(all.take(i as int) =~= all);
    if failures.len() == 0 {
        Ok(())
    } else {
        Err(failures)
    }
}

} // verus!
