# Lab builder

A service that turns uploaded lab files into a container image and tells the
`template_path` under which a lab is started. It builds on the machine it runs
on (Docker, and Kind where that is enabled) or in Google Cloud Build.

## Layout

- `src/` is the library: the rules of the service, verified with Verus.
  - `text`, `text_laws`: text as sequences of characters.
  - `error`, `json`: errors with their replies, JSON values as plain data.
  - `models/`: configuration, build jobs, source bundles.
  - `services/path_safety`, `file_policy`: which paths and files are accepted.
  - `services/source_bundles`, `context_hash`, `gcs`: bundles of uploaded files
    and where they go.
  - `services/builds`: build jobs from their creation to their end.
  - `services/local_build`: archives and commands on this machine.
  - `services/cloud_build`, `url_text`, `cloud_messages`, `tracking`: the Cloud
    Build API, its addresses and messages, and how a build is followed.
  - `routes/`: reading an upload, health, origins.
  - `*_laws`: what holds of all of this together.
  - `outside`: the calls into other crates, with the contracts that are believed
    of them.
- `app/` is the program around it: HTTP, disk, processes, tokens. It is not
  verified.
- `tests/` runs the library on concrete values.

## How the parts meet

Where work alternates between the outside and decisions, the library holds the
decisions as steps. An upload is an `UploadForm` that is fed field by field and
chunk by chunk. A bundle is a `BundleDraft` that tells where each file is to be
written. A build on this machine is a `LocalStep` that names the next action and
takes its outcome. A build in the cloud is a `CloudTracker` that takes the
outcome of each poll. `app/` performs the actions and hands the outcomes back.

## Limits

Uploads and archives are bounded by the `LAB_BUILDER_MAX_*` variables. At most
`LAB_BUILDER_MAX_CONCURRENT_BUILDS` builds run at once: the library tells the
number, and `app/` keeps to it with a semaphore, which is not verified. Jobs are
kept in memory only. In cloud mode a ready image is reused for an upload of the
same files in the same order, with the same Dockerfile path and tag. Paths are
text: a path on disk that is not valid UTF-8 is refused.
