//! The build definitions for generated container images: a CPU template
//! and an accelerator-enabled template, both parameterized by the python
//! version and the extra package lists.

use vstd::prelude::*;

verus! {

use vstd::string::StringExecFns;

/// The build definition for a generated CPU image.
pub const CPU_DOCKERFILE: &'static str = r#"
    ARG PYTHON_VERSION="3.12"
    FROM python:${PYTHON_VERSION}

    ARG EXTRA_PYTHON_PACKAGES=""
    ARG EXTRA_SYSTEM_PACKAGES=""

    RUN apt-get -y update && DEBIAN_FRONTEND=noninteractive apt-get -y install --no-install-recommends ca-certificates && rm -rf /var/lib/apt/lists/*

    RUN python -m ensurepip

    # Install extra system packages
    RUN if [ "${EXTRA_SYSTEM_PACKAGES}" != "" ]; then apt-get -y install --no-install-recommends ${EXTRA_SYSTEM_PACKAGES}; fi

    # Install FastAPI as standard
    RUN pip install fastapi[standard]

    # Install extra python packages
    RUN if [ "${EXTRA_PYTHON_PACKAGES}" != "" ]; then pip3 install --no-input ${EXTRA_PYTHON_PACKAGES}; fi

    ENV PYTHONUNBUFFERED=TRUE
    ENV PYTHONDONTWRITEBYTECODE=TRUE
    ENV PATH="${PATH}:/opt/program"

    COPY . /opt/program
    COPY serve.py /opt/program
    WORKDIR /opt/program

    ENTRYPOINT [ "python", "serve.py" ]
    "#;

/// The build definition for a generated accelerator-enabled image.
pub const GPU_DOCKERFILE: &'static str = r#"
    ARG PYTHON_VERSION="3.12"
    FROM ubuntu:${PYTHON_VERSION}

    ARG EXTRA_PYTHON_PACKAGES=""
    ARG EXTRA_SYSTEM_PACKAGES=""

    RUN apt-get -y update && DEBIAN_FRONTEND=noninteractive apt-get -y install --no-install-recommends \
        build-essential libssl-dev zlib1g-dev \
        libbz2-dev libreadline-dev libsqlite3-dev curl git \
        libncursesw5-dev xz-utils tk-dev libxml2-dev libxmlsec1-dev libffi-dev liblzma-dev wget ca-certificates && rm -rf /var/lib/apt/lists/*

    RUN wget https://developer.download.nvidia.com/compute/cuda/repos/ubuntu2204/x86_64/cuda-ubuntu2204.pin --no-check-certificate && \
        mv cuda-ubuntu2204.pin /etc/apt/preferences.d/cuda-repository-pin-600 && \
        wget https://developer.download.nvidia.com/compute/cuda/12.8.0/local_installers/cuda-repo-ubuntu2204-12-8-local_12.8.0-570.86.10-1_amd64.deb --no-check-certificate && \
        dpkg -i cuda-repo-ubuntu2204-12-8-local_12.8.0-570.86.10-1_amd64.deb && \
        cp /var/cuda-repo-ubuntu2204-12-8-local/cuda-*-keyring.gpg /usr/share/keyrings/ && \
        apt-get -y update && apt-get -y install cuda-toolkit-12-8

    ENV HOME=/home/root
    RUN curl https://pyenv.run | bash
    ENV PYENV_ROOT=${HOME}/.pyenv
    ENV PATH=${PYENV_ROOT}/shims:${PYENV_ROOT}/bin:$PATH

    RUN pyenv install ${PYTHON_VERSION}
    RUN pyenv global ${PYTHON_VERSION}

    # Install extra system packages
    RUN if [ "${EXTRA_SYSTEM_PACKAGES}" != "" ]; then apt-get -y install --no-install-recommends ${EXTRA_SYSTEM_PACKAGES}; fi

    # Install FastAPI as standard
    RUN pip install fastapi[standard]

    # Install extra python packages
    RUN if [ "${EXTRA_PYTHON_PACKAGES}" != "" ]; then pip install --no-input ${EXTRA_PYTHON_PACKAGES}; fi

    ENV PYTHONUNBUFFERED=TRUE
    ENV PYTHONDONTWRITEBYTECODE=TRUE
    ENV PATH="${PATH}:/opt/program"

    COPY . /opt/program
    COPY serve.py /opt/program
    WORKDIR /opt/program

    ENTRYPOINT [ "python", "serve.py" ]
    "#;

/// The build definition a CPU deploy uses.
pub fn cpu_dockerfile() -> (r: String)
    ensures
        r@ == CPU_DOCKERFILE@,
{
    String::from_str(CPU_DOCKERFILE)
}

/// The build definition an accelerator deploy uses.
pub fn gpu_dockerfile() -> (r: String)
    ensures
        r@ == GPU_DOCKERFILE@,
{
    String::from_str(GPU_DOCKERFILE)
}

/// The build definition for a generated image, selected by whether an
/// accelerator install was requested.
pub open spec fn dockerfile_text(gpu: bool) -> Seq<char> {
    if gpu {
        GPU_DOCKERFILE@
    } else {
        CPU_DOCKERFILE@
    }
}

/// The build definition for a generated image, selected by whether an
/// accelerator install was requested.
pub fn dockerfile_for(gpu: bool) -> (r: String)
    ensures
        r@ == dockerfile_text(gpu),
{
    if gpu {
        gpu_dockerfile()
    } else {
        cpu_dockerfile()
    }
}

} // verus!
