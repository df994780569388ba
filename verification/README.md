# prepare

Builds the archiso profile of a contest machine image. The library (`src/`) decides, from the
command-line options, every file-system step of the preparation: the directories to create,
the files to copy into `archiso-profile/airootfs`, and the install scripts to write, each with
its exact text. Every stage function is verified against a specification of the steps it
returns, and `src/laws.rs` and `src/distinct_names.rs` prove properties of the whole plan
(writes stay inside the profile, pre-install scripts come first, no two scripts share a name).

`app/main.rs` parses the command line, asks the library for the plan and performs its steps.

    ./prepare.sh --with --some-options && \
    sudo rm -rf /tmp/archiso-workdir/ out/* && \
    sudo mkarchiso -v -w /tmp/archiso-workdir archiso-profile/ && \
    ./test_iso.sh
